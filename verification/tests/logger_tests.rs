use wascc_actor::logger::{self, AutomaticLoggerHostBinding};
use wascc_codec::logging as wire;

fn entry(level: u32, body: &str) -> Vec<u8> {
    wascc_codec::serialize(wire::WriteLogRequest { level, body: body.to_string() }).unwrap()
}

#[test]
fn log_operation_name_matches_the_codec() {
    assert_eq!(logger::OP_LOG, wire::OP_LOG);
}

#[test]
fn levels_are_small_integers() {
    assert_eq!(logger::ERROR, 1);
    assert_eq!(logger::WARN, 2);
    assert_eq!(logger::INFO, 3);
    assert_eq!(logger::DEBUG, 4);
    assert_eq!(logger::TRACE, 5);
}

#[test]
fn log_request_carries_level_and_body() {
    let mut log = AutomaticLoggerHostBinding::default();
    logger::host(&mut log, "audit");
    let call = log.log_request(logger::WARN, "disk almost full").unwrap();
    assert_eq!(call.binding, "audit");
    assert_eq!(call.capability_id, "wascc:logging");
    assert_eq!(call.operation, "WriteLog");
    assert_eq!(call.payload, entry(2, "disk almost full"));
}

#[test]
fn logging_starts_at_the_default_binding() {
    let log = AutomaticLoggerHostBinding::default();
    assert_eq!(log.binding(), "default");
    let call = log.log_request(logger::INFO, "hello").unwrap();
    assert_eq!(call.binding, "default");
    assert_eq!(call.payload, entry(3, "hello"));
}

#[test]
fn default_switches_back_to_the_default_binding() {
    let mut log = AutomaticLoggerHostBinding::default();
    logger::host(&mut log, "audit");
    assert_eq!(log.binding(), "audit");
    logger::default(&mut log);
    assert_eq!(log.binding(), "default");
    assert_eq!(log.log_request(logger::DEBUG, "x").unwrap().binding, "default");
}

#[test]
fn entries_go_to_the_binding_of_the_last_switch_only() {
    let mut log = AutomaticLoggerHostBinding::default();
    logger::host(&mut log, "first");
    let call = log.log_request(logger::ERROR, "a").unwrap();
    assert_eq!(call.binding, "first");
    logger::host(&mut log, "second");
    let call = log.log_request(logger::ERROR, "b").unwrap();
    assert_eq!(call.binding, "second");
    assert_ne!(call.binding, "first");
    log.set_binding("first");
    assert_eq!(log.binding(), "first");
    assert_eq!(log.log_request(logger::TRACE, "c").unwrap().binding, "first");
}

#[test]
fn a_log_entry_that_the_host_turns_down_is_a_transport_failure() {
    let down = wapc_guest::errors::new(wapc_guest::errors::ErrorKind::HostError(
        "no logging provider".to_string(),
    ));
    let failed = wascc_actor::transport::acknowledged(Err(down)).unwrap_err();
    assert!(matches!(failed.kind(), wascc_actor::errors::ErrorKind::WapcError(_)));
    assert!(wascc_actor::transport::acknowledged(Ok(vec![])).is_ok());
}
