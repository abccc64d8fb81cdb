use wascc_actor::errors::ErrorKind;
use wascc_actor::kv::{self, KeyValueStoreHostBinding};
use wascc_actor::transport::Invocation;
use wascc_codec::keyvalue as wire;

fn host_failure(words: &str) -> wapc_guest::errors::Error {
    wapc_guest::errors::new(wapc_guest::errors::ErrorKind::HostError(words.to_string()))
}

fn expect_call(call: &Invocation, operation: &str, payload: Vec<u8>) {
    assert_eq!(call.binding, "cache");
    assert_eq!(call.capability_id, "wascc:keyvalue");
    assert_eq!(call.operation, operation);
    assert_eq!(call.payload, payload);
}

fn key_value_words(kind: ErrorKind) -> String {
    match kind {
        ErrorKind::KeyValueError(words) => words,
        other => panic!("unexpected kind {:?}", other),
    }
}

#[test]
fn kv_operation_names_match_the_codec() {
    assert_eq!(kv::OP_ADD, wire::OP_ADD);
    assert_eq!(kv::OP_GET, wire::OP_GET);
    assert_eq!(kv::OP_SET, wire::OP_SET);
    assert_eq!(kv::OP_DEL, wire::OP_DEL);
    assert_eq!(kv::OP_CLEAR, wire::OP_CLEAR);
    assert_eq!(kv::OP_RANGE, wire::OP_RANGE);
    assert_eq!(kv::OP_PUSH, wire::OP_PUSH);
    assert_eq!(kv::OP_LIST_DEL, wire::OP_LIST_DEL);
    assert_eq!(kv::OP_SET_ADD, wire::OP_SET_ADD);
    assert_eq!(kv::OP_SET_REMOVE, wire::OP_SET_REMOVE);
    assert_eq!(kv::OP_SET_UNION, wire::OP_SET_UNION);
    assert_eq!(kv::OP_SET_INTERSECT, wire::OP_SET_INTERSECT);
    assert_eq!(kv::OP_SET_QUERY, wire::OP_SET_QUERY);
    assert_eq!(kv::OP_KEY_EXISTS, wire::OP_KEY_EXISTS);
}

#[test]
fn kv_default_client_addresses_the_default_binding() {
    assert_eq!(kv::default().get_request("k").unwrap().binding, "default");
}

#[test]
fn get_request_carries_the_key() {
    let call = kv::host("cache").get_request("counter").unwrap();
    let payload = wascc_codec::serialize(wire::GetRequest { key: "counter".to_string() }).unwrap();
    expect_call(&call, "Get", payload);
}

#[test]
fn get_of_an_unknown_key_is_not_present() {
    let reply =
        wascc_codec::serialize(wire::GetResponse { value: String::new(), exists: false }).unwrap();
    let got = KeyValueStoreHostBinding::get_response(Ok(reply));
    assert!(matches!(got, Ok(None)));
    let reply =
        wascc_codec::serialize(wire::GetResponse { value: "stale".to_string(), exists: false })
            .unwrap();
    assert!(matches!(KeyValueStoreHostBinding::get_response(Ok(reply)), Ok(None)));
}

#[test]
fn get_of_a_known_key_returns_the_value() {
    let reply =
        wascc_codec::serialize(wire::GetResponse { value: "12".to_string(), exists: true })
            .unwrap();
    let got = KeyValueStoreHostBinding::get_response(Ok(reply)).unwrap();
    assert_eq!(got, Some("12".to_string()));
    let reply =
        wascc_codec::serialize(wire::GetResponse { value: String::new(), exists: true }).unwrap();
    let got = KeyValueStoreHostBinding::get_response(Ok(reply)).unwrap();
    assert_eq!(got, Some(String::new()));
}

#[test]
fn get_reports_transport_and_serialization_apart() {
    let failed = KeyValueStoreHostBinding::get_response(Err(host_failure("down"))).unwrap_err();
    assert!(matches!(failed.kind(), ErrorKind::WapcError(_)));
    let corrupt = KeyValueStoreHostBinding::get_response(Ok(vec![0xc1])).unwrap_err();
    assert!(matches!(corrupt.kind(), ErrorKind::Serialization(_)));
}

#[test]
fn set_request_carries_the_expiry() {
    let store = kv::host("cache");
    let call = store.set_request("k", "v", Some(100)).unwrap();
    let payload = wascc_codec::serialize(wire::SetRequest {
        key: "k".to_string(),
        value: "v".to_string(),
        expires_s: 100,
    })
    .unwrap();
    expect_call(&call, "Set", payload);
    let call = store.set_request("k", "v", None).unwrap();
    let payload = wascc_codec::serialize(wire::SetRequest {
        key: "k".to_string(),
        value: "v".to_string(),
        expires_s: 0,
    })
    .unwrap();
    expect_call(&call, "Set", payload);
    let call = store.set_request("k", "v", Some(2147483647)).unwrap();
    let payload = wascc_codec::serialize(wire::SetRequest {
        key: "k".to_string(),
        value: "v".to_string(),
        expires_s: i32::MAX,
    })
    .unwrap();
    expect_call(&call, "Set", payload);
}

#[test]
fn set_request_refuses_an_expiry_beyond_the_wire() {
    let failed = kv::host("cache").set_request("k", "v", Some(2147483648)).unwrap_err();
    assert_eq!(key_value_words(failed.into_kind()), "expiry does not fit in 32 bits");
    let failed = kv::host("cache").set_request("k", "v", Some(u32::MAX)).unwrap_err();
    assert_eq!(key_value_words(failed.into_kind()), kv::EXPIRY_OUT_OF_RANGE);
}

#[test]
fn atomic_add_request_carries_the_delta() {
    let call = kv::host("cache").atomic_add_request("counter", -5).unwrap();
    let payload =
        wascc_codec::serialize(wire::AddRequest { key: "counter".to_string(), value: -5 }).unwrap();
    expect_call(&call, "Add", payload);
}

#[test]
fn atomic_add_response_returns_the_new_value() {
    let reply = wascc_codec::serialize(wire::AddResponse { value: 37 }).unwrap();
    assert_eq!(KeyValueStoreHostBinding::atomic_add_response(Ok(reply)).unwrap(), 37);
    let reply = wascc_codec::serialize(wire::AddResponse { value: -1 }).unwrap();
    assert_eq!(KeyValueStoreHostBinding::atomic_add_response(Ok(reply)).unwrap(), -1);
    let corrupt = KeyValueStoreHostBinding::atomic_add_response(Ok(vec![])).unwrap_err();
    assert!(matches!(corrupt.kind(), ErrorKind::Serialization(_)));
}

#[test]
fn list_add_request_carries_the_item() {
    let call = kv::host("cache").list_add_request("queue", "job").unwrap();
    let payload = wascc_codec::serialize(wire::ListPushRequest {
        key: "queue".to_string(),
        value: "job".to_string(),
    })
    .unwrap();
    expect_call(&call, "Push", payload);
}

#[test]
fn list_del_item_request_carries_the_item() {
    let call = kv::host("cache").list_del_item_request("queue", "job").unwrap();
    let payload = wascc_codec::serialize(wire::ListDelItemRequest {
        key: "queue".to_string(),
        value: "job".to_string(),
    })
    .unwrap();
    expect_call(&call, "ListItemDelete", payload);
}

#[test]
fn list_count_response_returns_the_new_length() {
    let reply = wascc_codec::serialize(wire::ListResponse { new_count: 4 }).unwrap();
    assert_eq!(KeyValueStoreHostBinding::list_count_response(Ok(reply)).unwrap(), 4);
    let reply = wascc_codec::serialize(wire::ListResponse { new_count: 0 }).unwrap();
    assert_eq!(KeyValueStoreHostBinding::list_count_response(Ok(reply)).unwrap(), 0);
    let reply = wascc_codec::serialize(wire::ListResponse { new_count: i32::MAX }).unwrap();
    assert_eq!(KeyValueStoreHostBinding::list_count_response(Ok(reply)).unwrap(), 2147483647);
}

#[test]
fn list_count_response_does_not_believe_a_negative_count() {
    let reply = wascc_codec::serialize(wire::ListResponse { new_count: -1 }).unwrap();
    let failed = KeyValueStoreHostBinding::list_count_response(Ok(reply)).unwrap_err();
    assert_eq!(key_value_words(failed.into_kind()), "the store reported a negative count");
}

#[test]
fn del_key_request_carries_the_key() {
    let call = kv::host("cache").del_key_request("counter").unwrap();
    let payload = wascc_codec::serialize(wire::DelRequest { key: "counter".to_string() }).unwrap();
    expect_call(&call, "Del", payload);
}

#[test]
fn list_range_request_carries_both_positions() {
    let call = kv::host("cache").list_range_request("queue", 0, -1).unwrap();
    let payload = wascc_codec::serialize(wire::ListRangeRequest {
        key: "queue".to_string(),
        start: 0,
        stop: -1,
    })
    .unwrap();
    expect_call(&call, "Range", payload);
    let call = kv::host("cache").list_range_request("queue", -2147483648, 2147483647).unwrap();
    let payload = wascc_codec::serialize(wire::ListRangeRequest {
        key: "queue".to_string(),
        start: i32::MIN,
        stop: i32::MAX,
    })
    .unwrap();
    expect_call(&call, "Range", payload);
}

#[test]
fn list_range_request_refuses_a_position_beyond_the_wire() {
    let store = kv::host("cache");
    let failed = store.list_range_request("queue", 2147483648, 0).unwrap_err();
    assert_eq!(key_value_words(failed.into_kind()), "list position does not fit in 32 bits");
    let failed = store.list_range_request("queue", 0, -2147483649).unwrap_err();
    assert_eq!(key_value_words(failed.into_kind()), kv::POSITION_OUT_OF_RANGE);
}

#[test]
fn list_range_response_keeps_the_order_of_the_reply() {
    let reply = wascc_codec::serialize(wire::ListRangeResponse {
        values: vec!["b".to_string(), "a".to_string(), "b".to_string()],
    })
    .unwrap();
    let values = KeyValueStoreHostBinding::list_range_response(Ok(reply)).unwrap();
    assert_eq!(values, vec!["b".to_string(), "a".to_string(), "b".to_string()]);
}

#[test]
fn list_clear_request_carries_the_key() {
    let call = kv::host("cache").list_clear_request("queue").unwrap();
    let payload =
        wascc_codec::serialize(wire::ListClearRequest { key: "queue".to_string() }).unwrap();
    expect_call(&call, "Clear", payload);
}

#[test]
fn set_add_request_carries_the_member() {
    let call = kv::host("cache").set_add_request("tags", "red").unwrap();
    let payload = wascc_codec::serialize(wire::SetAddRequest {
        key: "tags".to_string(),
        value: "red".to_string(),
    })
    .unwrap();
    expect_call(&call, "SetAdd", payload);
}

#[test]
fn set_remove_request_carries_the_member() {
    let call = kv::host("cache").set_remove_request("tags", "red").unwrap();
    let payload = wascc_codec::serialize(wire::SetRemoveRequest {
        key: "tags".to_string(),
        value: "red".to_string(),
    })
    .unwrap();
    expect_call(&call, "SetRemove", payload);
}

#[test]
fn set_count_response_returns_the_new_size() {
    let reply = wascc_codec::serialize(wire::SetOperationResponse { new_count: 2 }).unwrap();
    assert_eq!(KeyValueStoreHostBinding::set_count_response(Ok(reply)).unwrap(), 2);
    let reply = wascc_codec::serialize(wire::SetOperationResponse { new_count: -7 }).unwrap();
    let failed = KeyValueStoreHostBinding::set_count_response(Ok(reply)).unwrap_err();
    assert_eq!(key_value_words(failed.into_kind()), kv::NEGATIVE_COUNT);
}

#[test]
fn set_union_request_carries_the_keys_in_order() {
    let keys = vec!["a".to_string(), "b".to_string()];
    let call = kv::host("cache").set_union_request(&keys).unwrap();
    let payload = wascc_codec::serialize(wire::SetUnionRequest { keys: keys.clone() }).unwrap();
    expect_call(&call, "SetUnion", payload);
    let other = kv::host("cache").set_union_request(&vec!["b".to_string(), "a".to_string()]);
    assert_ne!(other.unwrap().payload, call.payload);
}

#[test]
fn set_intersect_request_carries_the_keys_in_order() {
    let keys = vec!["a".to_string(), "b".to_string(), "c".to_string()];
    let call = kv::host("cache").set_intersect_request(&keys).unwrap();
    let payload =
        wascc_codec::serialize(wire::SetIntersectionRequest { keys: keys.clone() }).unwrap();
    expect_call(&call, "SetIntersection", payload);
}

#[test]
fn set_members_request_carries_the_key() {
    let call = kv::host("cache").set_members_request("tags").unwrap();
    let payload =
        wascc_codec::serialize(wire::SetQueryRequest { key: "tags".to_string() }).unwrap();
    expect_call(&call, "SetQuery", payload);
}

#[test]
fn set_values_response_returns_the_members() {
    let reply = wascc_codec::serialize(wire::SetQueryResponse {
        values: vec!["red".to_string(), "blue".to_string()],
    })
    .unwrap();
    let members = KeyValueStoreHostBinding::set_values_response(Ok(reply)).unwrap();
    assert_eq!(members, vec!["red".to_string(), "blue".to_string()]);
    let reply = wascc_codec::serialize(wire::SetQueryResponse { values: vec![] }).unwrap();
    assert!(KeyValueStoreHostBinding::set_values_response(Ok(reply)).unwrap().is_empty());
}

#[test]
fn key_exists_request_carries_the_key() {
    let call = kv::host("cache").key_exists_request("counter").unwrap();
    let payload =
        wascc_codec::serialize(wire::KeyExistsQuery { key: "counter".to_string() }).unwrap();
    expect_call(&call, "KeyExists", payload);
}

#[test]
fn key_exists_response_returns_the_flag() {
    let reply =
        wascc_codec::serialize(wire::GetResponse { value: String::new(), exists: true }).unwrap();
    assert!(KeyValueStoreHostBinding::key_exists_response(Ok(reply)).unwrap());
    let reply =
        wascc_codec::serialize(wire::GetResponse { value: "x".to_string(), exists: false })
            .unwrap();
    assert!(!KeyValueStoreHostBinding::key_exists_response(Ok(reply)).unwrap());
}
