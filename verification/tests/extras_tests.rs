use wascc_actor::errors::ErrorKind;
use wascc_actor::extras::{self, ExtrasHostBinding};
use wascc_actor::transport::Invocation;
use wascc_codec::extras as wire;

fn echo_random(call: &Invocation) -> Vec<u8> {
    let asked: wire::GeneratorRequest = wascc_codec::deserialize(&call.payload).unwrap();
    assert!(asked.random && !asked.guid && !asked.sequence);
    wascc_codec::serialize(wire::GeneratorResult {
        guid: None,
        sequence_number: 0,
        random_number: asked.min + (asked.max - asked.min) / 2,
    })
    .unwrap()
}

#[test]
fn extras_operation_names_match_the_codec() {
    assert_eq!(extras::OP_REQUEST_GUID, wire::OP_REQUEST_GUID);
    assert_eq!(extras::OP_REQUEST_SEQUENCE, wire::OP_REQUEST_SEQUENCE);
    assert_eq!(extras::OP_REQUEST_RANDOM, wire::OP_REQUEST_RANDOM);
}

#[test]
fn get_random_request_carries_the_range() {
    let call = extras::host("rng").get_random_request(3, 9).unwrap();
    assert_eq!(call.binding, "rng");
    assert_eq!(call.capability_id, "wascc:extras");
    assert_eq!(call.operation, "RequestRandom");
    let expected = wascc_codec::serialize(wire::GeneratorRequest {
        guid: false,
        sequence: false,
        random: true,
        min: 3,
        max: 9,
    })
    .unwrap();
    assert_eq!(call.payload, expected);
}

#[test]
fn get_random_stays_within_the_range_of_an_honest_host() {
    let client = extras::default();
    let ranges = [(0u32, 0u32), (3, 9), (10, 11), (0, u32::MAX), (u32::MAX, u32::MAX)];
    for (min, max) in ranges.iter() {
        let call = client.get_random_request(*min, *max).unwrap();
        let number = ExtrasHostBinding::get_random_response(Ok(echo_random(&call))).unwrap();
        assert!(*min <= number && number <= *max);
        assert_eq!(number, *min + (*max - *min) / 2);
    }
}

#[test]
fn get_random_hands_on_what_the_host_drew() {
    let reply = wascc_codec::serialize(wire::GeneratorResult {
        guid: None,
        sequence_number: 5,
        random_number: 42,
    })
    .unwrap();
    assert_eq!(ExtrasHostBinding::get_random_response(Ok(reply)).unwrap(), 42);
}

#[test]
fn get_guid_request_asks_for_an_identifier_only() {
    let call = extras::default().get_guid_request().unwrap();
    assert_eq!(call.binding, "default");
    assert_eq!(call.operation, "RequestGuid");
    let expected = wascc_codec::serialize(wire::GeneratorRequest {
        guid: true,
        sequence: false,
        random: false,
        min: 0,
        max: 0,
    })
    .unwrap();
    assert_eq!(call.payload, expected);
}

#[test]
fn get_guid_response_returns_the_identifier() {
    let reply = wascc_codec::serialize(wire::GeneratorResult {
        guid: Some("6f1c".to_string()),
        sequence_number: 0,
        random_number: 0,
    })
    .unwrap();
    assert_eq!(ExtrasHostBinding::get_guid_response(Ok(reply)).unwrap(), "6f1c");
}

#[test]
fn get_guid_response_without_an_identifier_says_none() {
    let reply = wascc_codec::serialize(wire::GeneratorResult {
        guid: None,
        sequence_number: 0,
        random_number: 0,
    })
    .unwrap();
    assert_eq!(ExtrasHostBinding::get_guid_response(Ok(reply)).unwrap(), "none");
    assert_eq!(extras::NO_GUID, "none");
}

#[test]
fn get_sequence_number_request_asks_for_a_sequence_number_only() {
    let call = extras::default().get_sequence_number_request().unwrap();
    assert_eq!(call.operation, "RequestSequence");
    let expected = wascc_codec::serialize(wire::GeneratorRequest {
        guid: false,
        sequence: true,
        random: false,
        min: 0,
        max: 0,
    })
    .unwrap();
    assert_eq!(call.payload, expected);
}

#[test]
fn get_sequence_number_response_returns_the_number() {
    let reply = wascc_codec::serialize(wire::GeneratorResult {
        guid: None,
        sequence_number: u64::MAX,
        random_number: 1,
    })
    .unwrap();
    assert_eq!(ExtrasHostBinding::get_sequence_number_response(Ok(reply)).unwrap(), u64::MAX);
}

#[test]
fn extras_report_transport_and_serialization_apart() {
    let down = wapc_guest::errors::new(wapc_guest::errors::ErrorKind::HostError("x".to_string()));
    let failed = ExtrasHostBinding::get_random_response(Err(down)).unwrap_err();
    assert!(matches!(failed.kind(), ErrorKind::WapcError(_)));
    let corrupt = ExtrasHostBinding::get_random_response(Ok(vec![0x92, 0x01])).unwrap_err();
    assert!(matches!(corrupt.kind(), ErrorKind::Serialization(_)));
    let corrupt = ExtrasHostBinding::get_guid_response(Ok(vec![])).unwrap_err();
    assert!(matches!(corrupt.kind(), ErrorKind::Serialization(_)));
    let corrupt = ExtrasHostBinding::get_sequence_number_response(Ok(vec![0xc0])).unwrap_err();
    assert!(matches!(corrupt.kind(), ErrorKind::Serialization(_)));
}
