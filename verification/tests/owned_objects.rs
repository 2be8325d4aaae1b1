use sui_data_provider::convert::{INCOMPLETE_OBJECT, NEITHER_DATA_NOR_ERROR};
use sui_data_provider::error::Error;
use sui_data_provider::native::{
    NativeObjectData, NativeObjectResponse, NativeObjectsPage, NativeOwner, NativeRawData,
};
use sui_data_provider::provider::owned_objects::{
    fetch_owned_objs_cursor, fetch_owned_objs_request, fetch_owned_objs_result,
    validate_cursor_args, CursorPending, OwnedObjectsQuery, OwnedObjectsStep,
};
use sui_data_provider::types::address::SuiAddress;
use sui_data_provider::types::base64::Base64;
use sui_data_provider::types::object::{
    Object, ObjectConnection, ObjectEdge, ObjectFilter, ObjectKind,
};

fn addr(n: u8) -> SuiAddress {
    SuiAddress::from_array([n; 32])
}

fn record(n: u8) -> NativeObjectData {
    NativeObjectData {
        object_id: addr(n),
        object_id_text: format!("0x{}", format!("{:02x}", n).repeat(32)),
        version: n as u64,
        digest: format!("digest-{}", n),
        storage_rebate: Some(n as u64 * 10),
        owner: Some(NativeOwner::AddressOwner(addr(0xee))),
        previous_transaction: Some(format!("tx-{}", n)),
        bcs: Some(NativeRawData::MoveObject(vec![n])),
    }
}

fn shown(n: u8) -> Object {
    Object {
        address: addr(n),
        version: n as u64,
        digest: format!("digest-{}", n),
        storage_rebate: Some(n as u64 * 10),
        owner: Some(addr(0xee)),
        bcs: Some(Base64 { bytes: vec![n] }),
        previous_transaction: Some(format!("tx-{}", n)),
        kind: Some(ObjectKind::Owned),
    }
}

fn item(n: u8) -> NativeObjectResponse {
    NativeObjectResponse { data: Some(record(n)), error: None }
}

fn failed(message: &str) -> NativeObjectResponse {
    NativeObjectResponse { data: None, error: Some(message.to_string()) }
}

fn pending(count: Option<usize>) -> CursorPending {
    CursorPending { owner: addr(7), count, text: "0x42".to_string() }
}

fn text(set: bool) -> Option<String> {
    if set {
        Some("0x2".to_string())
    } else {
        None
    }
}

fn size(set: bool) -> Option<u64> {
    if set {
        Some(10)
    } else {
        None
    }
}

#[test]
fn before_with_after_is_refused_as_conflicting() {
    for first in [false, true] {
        for last in [false, true] {
            assert_eq!(
                validate_cursor_args(size(first), &text(true), size(last), &text(true)),
                Err(Error::CursorNoBeforeAfter)
            );
            assert_eq!(
                fetch_owned_objs_request(
                    &addr(1),
                    size(first),
                    text(true),
                    size(last),
                    text(true),
                    None
                ),
                Err(Error::CursorNoBeforeAfter)
            );
        }
    }
}

#[test]
fn first_with_last_is_refused_as_conflicting() {
    for after in [false, true] {
        for before in [false, true] {
            let expected = if after && before {
                Error::CursorNoBeforeAfter
            } else {
                Error::CursorNoFirstLast
            };
            assert_eq!(
                validate_cursor_args(size(true), &text(after), size(true), &text(before)),
                Err(expected.clone())
            );
            assert_eq!(
                fetch_owned_objs_request(
                    &addr(1),
                    size(true),
                    text(after),
                    size(true),
                    text(before),
                    None
                ),
                Err(expected)
            );
        }
    }
}

#[test]
fn before_or_last_alone_is_refused_as_reverse_pagination() {
    assert_eq!(
        validate_cursor_args(None, &None, None, &text(true)),
        Err(Error::CursorNoReversePagination)
    );
    assert_eq!(
        validate_cursor_args(None, &None, size(true), &None),
        Err(Error::CursorNoReversePagination)
    );
    assert_eq!(
        validate_cursor_args(None, &None, size(true), &text(true)),
        Err(Error::CursorNoReversePagination)
    );
    assert_eq!(
        validate_cursor_args(size(true), &None, None, &text(true)),
        Err(Error::CursorNoReversePagination)
    );
    assert_eq!(
        validate_cursor_args(None, &text(true), size(true), &None),
        Err(Error::CursorNoReversePagination)
    );
}

#[test]
fn every_combination_of_cursor_arguments() {
    for bits in 0u8..16 {
        let (first, after, last, before) =
            (bits & 1 != 0, bits & 2 != 0, bits & 4 != 0, bits & 8 != 0);
        let expected = if before && after {
            Err(Error::CursorNoBeforeAfter)
        } else if first && last {
            Err(Error::CursorNoFirstLast)
        } else if before || last {
            Err(Error::CursorNoReversePagination)
        } else {
            Ok(())
        };
        assert_eq!(
            validate_cursor_args(size(first), &text(after), size(last), &text(before)),
            expected,
            "first {} after {} last {} before {}",
            first,
            after,
            last,
            before
        );
        let started = fetch_owned_objs_request(
            &addr(1),
            size(first),
            text(after),
            size(last),
            text(before),
            None,
        );
        assert_eq!(started.map(|_| ()), expected);
    }
}

#[test]
fn forward_arguments_pass() {
    assert_eq!(validate_cursor_args(None, &None, None, &None), Ok(()));
    assert_eq!(validate_cursor_args(Some(0), &None, None, &None), Ok(()));
    assert_eq!(validate_cursor_args(None, &Some("".to_string()), None, &None), Ok(()));
    assert_eq!(validate_cursor_args(Some(50), &Some("junk".to_string()), None, &None), Ok(()));
}

#[test]
fn request_without_cursor_asks_the_client() {
    assert_eq!(
        fetch_owned_objs_request(&addr(7), Some(25), None, None, None, None),
        Ok(OwnedObjectsStep::Query(OwnedObjectsQuery {
            owner: addr(7),
            cursor: None,
            count: Some(25),
        }))
    );
    assert_eq!(
        fetch_owned_objs_request(&addr(7), None, None, None, None, None),
        Ok(OwnedObjectsStep::Query(OwnedObjectsQuery { owner: addr(7), cursor: None, count: None }))
    );
}

#[test]
fn request_with_cursor_has_it_parsed_first() {
    assert_eq!(
        fetch_owned_objs_request(&addr(7), Some(25), Some("0xabc".to_string()), None, None, None),
        Ok(OwnedObjectsStep::ParseCursor(CursorPending {
            owner: addr(7),
            count: Some(25),
            text: "0xabc".to_string(),
        }))
    );
    assert_eq!(
        fetch_owned_objs_request(&addr(7), None, Some("not hex".to_string()), None, None, None),
        Ok(OwnedObjectsStep::ParseCursor(CursorPending {
            owner: addr(7),
            count: None,
            text: "not hex".to_string(),
        }))
    );
}

#[test]
fn filter_has_no_effect() {
    let filter = ObjectFilter {
        package: Some(addr(2)),
        module: Some("coin".to_string()),
        ty: Some("Coin".to_string()),
        owner: Some(addr(3)),
        object_ids: Some(vec![addr(4)]),
    };
    assert_eq!(
        fetch_owned_objs_request(&addr(7), Some(5), None, None, None, Some(filter.clone())),
        fetch_owned_objs_request(&addr(7), Some(5), None, None, None, None)
    );
    assert_eq!(
        fetch_owned_objs_request(&addr(7), Some(5), None, Some(1), None, Some(filter)),
        Err(Error::CursorNoFirstLast)
    );
}

#[test]
fn cursor_fetch_step_by_step() {
    let step =
        fetch_owned_objs_request(&addr(7), Some(2), Some("0x03".to_string()), None, None, None)
            .unwrap();
    let pending = match step {
        OwnedObjectsStep::ParseCursor(p) => p,
        OwnedObjectsStep::Query(_) => panic!("a cursor was given"),
    };
    assert_eq!(pending.text, "0x03");
    let query = fetch_owned_objs_cursor(pending, Ok(addr(3))).unwrap();
    assert_eq!(query, OwnedObjectsQuery { owner: addr(7), cursor: Some(addr(3)), count: Some(2) });
    let page = NativeObjectsPage { data: vec![item(4), item(5)], has_next_page: false };
    let c = fetch_owned_objs_result(Ok(page)).unwrap();
    assert_eq!(c.edges.len(), 2);
    assert_eq!(c.edges[1].node, shown(5));
}

#[test]
fn parsed_cursor_starts_the_query_behind_it() {
    assert_eq!(
        fetch_owned_objs_cursor(pending(Some(3)), Ok(addr(0x42))),
        Ok(OwnedObjectsQuery { owner: addr(7), cursor: Some(addr(0x42)), count: Some(3) })
    );
    assert_eq!(
        fetch_owned_objs_cursor(pending(None), Ok(addr(0))),
        Ok(OwnedObjectsQuery { owner: addr(7), cursor: Some(addr(0)), count: None })
    );
}

#[test]
fn malformed_cursor_is_invalid_cursor() {
    assert_eq!(
        fetch_owned_objs_cursor(pending(Some(3)), Err("hex literal must start with 0x".to_string())),
        Err(Error::InvalidCursor("hex literal must start with 0x".to_string()))
    );
}

#[test]
fn page_size_is_first() {
    let q = fetch_owned_objs_request(&addr(7), Some(4_000_000_000), None, None, None, None);
    assert_eq!(
        q,
        Ok(OwnedObjectsStep::Query(OwnedObjectsQuery {
            owner: addr(7),
            cursor: None,
            count: Some(4_000_000_000u64 as usize),
        }))
    );
    let z = fetch_owned_objs_request(&addr(7), Some(0), Some("0x1".to_string()), None, None, None);
    assert_eq!(
        z,
        Ok(OwnedObjectsStep::ParseCursor(CursorPending {
            owner: addr(7),
            count: Some(0),
            text: "0x1".to_string(),
        }))
    );
}

#[test]
fn page_of_three_items() {
    let page = NativeObjectsPage { data: vec![item(1), item(2), item(3)], has_next_page: true };
    assert_eq!(
        fetch_owned_objs_result(Ok(page)),
        Ok(ObjectConnection {
            edges: vec![
                ObjectEdge { cursor: format!("0x{}", "01".repeat(32)), node: shown(1) },
                ObjectEdge { cursor: format!("0x{}", "02".repeat(32)), node: shown(2) },
                ObjectEdge { cursor: format!("0x{}", "03".repeat(32)), node: shown(3) },
            ],
            has_previous_page: false,
            has_next_page: true,
        })
    );
}

#[test]
fn page_mirrors_has_next_page() {
    for more in [false, true] {
        let page = NativeObjectsPage { data: vec![item(1)], has_next_page: more };
        let c = fetch_owned_objs_result(Ok(page)).unwrap();
        assert_eq!(c.has_next_page, more);
        assert!(!c.has_previous_page);
    }
}

#[test]
fn empty_page() {
    let page = NativeObjectsPage { data: vec![], has_next_page: false };
    assert_eq!(
        fetch_owned_objs_result(Ok(page)),
        Ok(ObjectConnection { edges: vec![], has_previous_page: false, has_next_page: false })
    );
}

#[test]
fn item_two_of_three_with_error_fails_the_page() {
    let page = NativeObjectsPage {
        data: vec![item(1), failed("object deleted"), item(3)],
        has_next_page: true,
    };
    assert_eq!(
        fetch_owned_objs_result(Ok(page)),
        Err(Error::CursorConnectionFetchFailed("object deleted".to_string()))
    );
}

#[test]
fn item_with_error_and_data_fails_the_page() {
    let both = NativeObjectResponse { data: Some(record(2)), error: Some("stale".to_string()) };
    let page = NativeObjectsPage { data: vec![item(1), both], has_next_page: false };
    assert_eq!(
        fetch_owned_objs_result(Ok(page)),
        Err(Error::CursorConnectionFetchFailed("stale".to_string()))
    );
}

#[test]
fn item_with_neither_data_nor_error_fails_the_page() {
    let neither = NativeObjectResponse { data: None, error: None };
    let page = NativeObjectsPage { data: vec![item(1), item(2), neither], has_next_page: false };
    assert_eq!(
        fetch_owned_objs_result(Ok(page)),
        Err(Error::Internal(NEITHER_DATA_NOR_ERROR.to_string()))
    );
    assert_eq!(
        NEITHER_DATA_NOR_ERROR,
        "Expected either data or error fields, received neither"
    );
}

#[test]
fn first_item_that_cannot_be_shown_decides() {
    let neither = NativeObjectResponse { data: None, error: None };
    let page = NativeObjectsPage {
        data: vec![neither.clone(), failed("a"), failed("b")],
        has_next_page: false,
    };
    assert_eq!(
        fetch_owned_objs_result(Ok(page)),
        Err(Error::Internal(NEITHER_DATA_NOR_ERROR.to_string()))
    );
    let page = NativeObjectsPage { data: vec![item(1), failed("a"), neither, failed("b")], has_next_page: false };
    assert_eq!(
        fetch_owned_objs_result(Ok(page)),
        Err(Error::CursorConnectionFetchFailed("a".to_string()))
    );
}

#[test]
fn item_errors_come_before_incomplete_objects() {
    let mut incomplete = record(1);
    incomplete.owner = None;
    let incomplete = NativeObjectResponse { data: Some(incomplete), error: None };
    let page = NativeObjectsPage {
        data: vec![incomplete.clone(), item(2), failed("gone")],
        has_next_page: false,
    };
    assert_eq!(
        fetch_owned_objs_result(Ok(page)),
        Err(Error::CursorConnectionFetchFailed("gone".to_string()))
    );
    let page = NativeObjectsPage { data: vec![item(2), incomplete], has_next_page: false };
    assert_eq!(
        fetch_owned_objs_result(Ok(page)),
        Err(Error::Internal(INCOMPLETE_OBJECT.to_string()))
    );
}

#[test]
fn failed_call_fails_the_page() {
    assert_eq!(
        fetch_owned_objs_result(Err("connection reset".to_string())),
        Err(Error::Client("connection reset".to_string()))
    );
}
