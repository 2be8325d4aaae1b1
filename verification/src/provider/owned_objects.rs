//! Fetching a page of the objects that an address owns.
//!
//! Pages are read forwards only: `first` bounds the size of the page and
//! `after` names the object behind which it starts. The arguments are
//! checked before anything is asked of the client.

use vstd::prelude::*;
use crate::convert::{converted_object, try_convert_obj, INCOMPLETE_OBJECT, NEITHER_DATA_NOR_ERROR};
use crate::error::{Error, ErrorView};
use crate::model::{reply_view, seq_view};
use crate::native::{NativeObjectResponseView, NativeObjectsPage, NativeObjectsPageView};
use crate::types::address::SuiAddress;
use crate::types::object::{
    ObjectConnection, ObjectConnectionView, ObjectEdge, ObjectEdgeView, ObjectFilter,
};

verus! {

/// Why the cursor arguments are refused, if they are. The checks are made in
/// this order: `before` with `after`; `first` with `last`; `before` or
/// `last` alone.
pub open spec fn cursor_args_failure(
    first: bool,
    after: bool,
    last: bool,
    before: bool,
) -> Option<ErrorView> {
    if before && after {
        Some(ErrorView::CursorNoBeforeAfter)
    } else if first && last {
        Some(ErrorView::CursorNoFirstLast)
    } else if before || last {
        Some(ErrorView::CursorNoReversePagination)
    } else {
        None
    }
}

/// The failure says that two arguments were given that exclude each other.
pub open spec fn is_conflicting_arguments(e: ErrorView) -> bool {
    e is CursorNoBeforeAfter || e is CursorNoFirstLast
}

/// Checks the cursor arguments of a request for a page.
///
/// `before` with `after`, and `first` with `last`, are refused as
/// conflicting. `before` or `last` on its own is refused because pages are
/// not read backwards. Everything else passes.
pub fn validate_cursor_args(
    first: Option<u64>,
    after: &Option<String>,
    last: Option<u64>,
    before: &Option<String>,
) -> (r: Result<(), Error>)
    ensures
        r is Ok <==> cursor_args_failure(first is Some, after is Some, last is Some, before is Some)
            is None,
        r matches Err(e) ==> Some(e@) == cursor_args_failure(
            first is Some,
            after is Some,
            last is Some,
            before is Some,
        ),
        before is Some && after is Some ==> r matches Err(Error::CursorNoBeforeAfter),
        first is Some && last is Some ==> r is Err && is_conflicting_arguments(r->Err_0@),
        before is Some || last is Some ==> r is Err,
        (before is Some || last is Some) && !(before is Some && after is Some) && !(first is Some
            && last is Some) ==> r matches Err(Error::CursorNoReversePagination),
{
    if before.is_some() && after.is_some() {
        return Err(Error::CursorNoBeforeAfter);
    }
    if first.is_some() && last.is_some() {
        return Err(Error::CursorNoFirstLast);
    }
    if before.is_some() || last.is_some() {
        return Err(Error::CursorNoReversePagination);
    }
    Ok(())
}

/// The bound on the size of a page: `first` as a size of this machine.
pub open spec fn page_size(first: Option<u64>) -> Option<usize> {
    match first {
        Some(q) => Some(q as usize),
        None => None,
    }
}

/// What to ask the client for: objects of `owner`, each with full content,
/// starting behind `cursor` and at most `count` of them.
#[derive(Clone, Copy, Debug, PartialEq, Eq)]
pub struct OwnedObjectsQuery {
    pub owner: SuiAddress,
    pub cursor: Option<SuiAddress>,
    pub count: Option<usize>,
}

/// A fetch that waits for its `after` cursor to be read as an object
/// identifier.
#[derive(Clone, Debug, PartialEq, Eq)]
pub struct CursorPending {
    pub owner: SuiAddress,
    pub count: Option<usize>,
    /// The cursor as the caller gave it.
    pub text: String,
}

/// What comes after the arguments were accepted.
#[derive(Clone, Debug, PartialEq, Eq)]
pub enum OwnedObjectsStep {
    /// The `after` cursor is to be read as an object identifier; the outcome
    /// goes to [`fetch_owned_objs_cursor`].
    ParseCursor(CursorPending),
    /// There is no cursor: the client can be asked at once.
    Query(OwnedObjectsQuery),
}

/// Starts the fetch of a page of owned objects.
///
/// Fails, before anything is asked of the client, where the cursor arguments
/// are refused. Otherwise says what comes next: reading the `after` cursor
/// if there is one, else the query for the first page. The filter is
/// accepted and has no effect.
pub fn fetch_owned_objs_request(
    owner: &SuiAddress,
    first: Option<u64>,
    after: Option<String>,
    last: Option<u64>,
    before: Option<String>,
    _filter: Option<ObjectFilter>,
) -> (r: Result<OwnedObjectsStep, Error>)
    ensures
        r is Ok <==> cursor_args_failure(first is Some, after is Some, last is Some, before is Some)
            is None,
        r matches Err(e) ==> Some(e@) == cursor_args_failure(
            first is Some,
            after is Some,
            last is Some,
            before is Some,
        ),
        r matches Ok(step) ==> match after {
            Some(q) => step == OwnedObjectsStep::ParseCursor(
                CursorPending { owner: *owner, count: page_size(first), text: q },
            ),
            None => step == OwnedObjectsStep::Query(
                OwnedObjectsQuery { owner: *owner, cursor: None, count: page_size(first) },
            ),
        },
        before is Some && after is Some ==> r matches Err(Error::CursorNoBeforeAfter),
        first is Some && last is Some ==> r is Err && is_conflicting_arguments(r->Err_0@),
        before is Some || last is Some ==> r is Err,
        (before is Some || last is Some) && !(before is Some && after is Some) && !(first is Some
            && last is Some) ==> r matches Err(Error::CursorNoReversePagination),
{
    match validate_cursor_args(first, &after, last, &before) {
        Ok(()) => {},
        Err(e) => {
            return Err(e);
        },
    }
    match after {
        Some(q) => Ok(
            OwnedObjectsStep::ParseCursor(
                CursorPending { owner: *owner, count: count_of(first), text: q },
            ),
        ),
        None => Ok(
            OwnedObjectsStep::Query(
                OwnedObjectsQuery { owner: *owner, cursor: None, count: count_of(first) },
            ),
        ),
    }
}

/// Computes the bound on the size of a page.
fn count_of(first: Option<u64>) -> (count: Option<usize>)
    ensures
        count == page_size(first),
{
    match first {
        Some(q) => Some(q as usize),
        None => None,
    }
}

/// Takes the outcome of reading the `after` cursor as an object identifier.
///
/// A cursor that is no identifier ends the fetch as an invalid cursor, with
/// the parser's words. Otherwise the query starts behind the object named.
pub fn fetch_owned_objs_cursor(pending: CursorPending, parsed: Result<SuiAddress, String>) -> (r:
    Result<OwnedObjectsQuery, Error>)
    ensures
        parsed matches Ok(id) ==> r == Ok::<OwnedObjectsQuery, Error>(
            OwnedObjectsQuery { owner: pending.owner, cursor: Some(id), count: pending.count },
        ),
        parsed matches Err(w) ==> r == Err::<OwnedObjectsQuery, Error>(Error::InvalidCursor(w)),
{
    match parsed {
        Ok(id) => Ok(
            OwnedObjectsQuery { owner: pending.owner, cursor: Some(id), count: pending.count },
        ),
        Err(w) => Err(Error::InvalidCursor(w)),
    }
}

/// Why one item of a page cannot be shown, if it cannot: it carries an
/// error, or it carries neither an error nor an object.
pub open spec fn item_failure(item: NativeObjectResponseView) -> Option<ErrorView> {
    if item.error is Some {
        Some(ErrorView::CursorConnectionFetchFailed(item.error->0))
    } else if item.data is None {
        Some(ErrorView::Internal(NEITHER_DATA_NOR_ERROR@))
    } else {
        None
    }
}

/// The failure of the first item of a page that cannot be shown, if there is
/// such an item.
pub open spec fn page_failure(items: Seq<NativeObjectResponseView>) -> Option<ErrorView>
    decreases items.len(),
{
    if items.len() == 0 {
        None
    } else {
        match item_failure(items[0]) {
            Some(e) => Some(e),
            None => page_failure(items.skip(1)),
        }
    }
}

/// Every item holds an object with its owner and previous transaction.
pub open spec fn all_complete(items: Seq<NativeObjectResponseView>) -> bool {
    forall|i: int|
        0 <= i < items.len() ==> (#[trigger] items[i]).data is Some && items[i].data->0.is_complete()
}

/// The edge of an item that can be shown: the object, under the text of
/// its identifier.
pub open spec fn converted_edge(item: NativeObjectResponseView) -> ObjectEdgeView {
    ObjectEdgeView {
        cursor: item.data->0.object_id_text,
        node: converted_object(item.data->0),
    }
}

/// How fetching a page ends, given what came back from the client.
///
/// A page is shown whole or not at all. The items are first looked through
/// for one that cannot be shown; only then are the objects converted.
pub open spec fn fetched_page(reply: Result<NativeObjectsPageView, Seq<char>>) -> Result<
    ObjectConnectionView,
    ErrorView,
> {
    match reply {
        Err(m) => Err(ErrorView::Client(m)),
        Ok(pg) => match page_failure(pg.data) {
            Some(e) => Err(e),
            None => if all_complete(pg.data) {
                Ok(
                    ObjectConnectionView {
                        edges: Seq::new(pg.data.len(), |i: int| converted_edge(pg.data[i])),
                        has_previous_page: false,
                        has_next_page: pg.has_next_page,
                    },
                )
            } else {
                Err(ErrorView::Internal(INCOMPLETE_OBJECT@))
            },
        },
    }
}

/// A page fails on its items exactly when one of them cannot be shown.
pub proof fn lemma_page_failure(items: Seq<NativeObjectResponseView>)
    ensures
        page_failure(items) is None <==> forall|i: int|
            0 <= i < items.len() ==> item_failure(#[trigger] items[i]) is None,
        page_failure(items) matches Some(e) ==> exists|i: int|
            0 <= i < items.len() && item_failure(#[trigger] items[i]) == Some(e),
    decreases items.len(),
{
    if items.len() > 0 {
        let rest = items.skip(1);
        lemma_page_failure(rest);
        if item_failure(items[0]) is None {
            if page_failure(items) is None {
                assert forall|i: int| 0 <= i < items.len() implies item_failure(
                    #[trigger] items[i],
                ) is None by {
                    if i > 0 {
                        assert(items[i] == rest[i - 1]);
                    }
                }
            } else {
                let e = page_failure(rest)->0;
                let j = choose|j: int|
                    0 <= j < rest.len() && item_failure(#[trigger] rest[j]) == Some(e);
                assert(items[j + 1] == rest[j]);
            }
        }
    }
}

/// Ends the fetch of a page of owned objects.
///
/// A failed call is handed on as it is. If an item carries an error, the
/// whole page fails with that error; if an item carries neither an error nor
/// an object, the page fails as an internal failure; the first such item
/// decides. A page that holds an object without owner or previous
/// transaction fails as an internal failure too. Otherwise every item
/// becomes an edge under the text of its identifier, in the client's order,
/// and the page says that more follow exactly when the client said so.
pub fn fetch_owned_objs_result(reply: Result<NativeObjectsPage, String>) -> (r: Result<
    ObjectConnection,
    Error,
>)
    ensures
        r is Ok <==> fetched_page(reply_view(reply)) is Ok,
        r matches Ok(c) ==> c@ == fetched_page(reply_view(reply))->Ok_0,
        r matches Err(e) ==> e@ == fetched_page(reply_view(reply))->Err_0,
        reply matches Ok(pg) && (exists|i: int|
            0 <= i < pg@.data.len() && (#[trigger] pg@.data[i]).error is Some) ==> r is Err,
{
    let pg = match reply {
        Ok(pg) => pg,
        Err(m) => {
            return Err(Error::Client(m));
        },
    };
    let ghost items = pg@.data;
    proof {
        lemma_page_failure(items);
    }
    let n = pg.data.len();
    let mut i: usize = 0;
    assert(items.skip(0) =~= items);
    while i < n
        invariant
            i <= n,
            n == pg.data@.len(),
            reply == Ok::<NativeObjectsPage, String>(pg),
            items == seq_view(pg.data@),
            page_failure(items) == page_failure(items.skip(i as int)),
        decreases n - i,
    {
        let item = &pg.data[i];
        assert(items.skip(i as int)[0] == item@);
        assert(items.skip(i as int).skip(1) =~= items.skip(i + 1));
        match &item.error {
            Some(w) => {
                return Err(Error::CursorConnectionFetchFailed(w.clone()));
            },
            None => {
                if item.data.is_none() {
                    return Err(Error::Internal(String::from_str(NEITHER_DATA_NOR_ERROR)));
                }
            },
        }
        i = i + 1;
    }
    let mut edges: Vec<ObjectEdge> = Vec::new();
    let mut k: usize = 0;
    while k < n
        invariant
            k <= n,
            n == pg.data@.len(),
            reply == Ok::<NativeObjectsPage, String>(pg),
            items == seq_view(pg.data@),
            page_failure(items) is None,
            forall|j: int| 0 <= j < n ==> item_failure(#[trigger] items[j]) is None,
            forall|j: int| 0 <= j < k ==> (#[trigger] items[j]).data->0.is_complete(),
            edges@.len() == k,
            forall|j: int| 0 <= j < k ==> (#[trigger] edges@[j])@ == converted_edge(items[j]),
        decreases n - k,
    {
        let item = &pg.data[k];
        assert(items[k as int] == item@);
        match &item.data {
            Some(g) => {
                let o = match try_convert_obj(g) {
                    Ok(o) => o,
                    Err(e) => {
                        return Err(e);
                    },
                };
                edges.push(ObjectEdge { cursor: g.object_id_text.clone(), node: o });
            },
            None => {},
        }
        k = k + 1;
    }
    let c = ObjectConnection { edges, has_previous_page: false, has_next_page: pg.has_next_page };
    proof {
        assert(all_complete(items)) by {
            assert forall|j: int| 0 <= j < items.len() implies (#[trigger] items[j]).data is Some
                && items[j].data->0.is_complete() by {
                assert(item_failure(items[j]) is None);
            }
        }
        assert(c@.edges =~= fetched_page(reply_view(reply))->Ok_0.edges);
    }
    Ok(c)
}

} // verus!
