use wascc_actor::errors::ErrorKind;
use wascc_actor::objectstore::{self, Blob, BlobList, Container, ObjectStoreHostBinding, Transfer};
use wascc_actor::transport::Invocation;
use wascc_codec::blobstore as wire;

fn host_failure(words: &str) -> wapc_guest::errors::Error {
    wapc_guest::errors::new(wapc_guest::errors::ErrorKind::HostError(words.to_string()))
}

fn sample_blob() -> Blob {
    Blob { id: "report.pdf".to_string(), container: "docs".to_string(), byte_size: 10 }
}

fn expect_call(call: &Invocation, binding: &str, operation: &str, payload: Vec<u8>) {
    assert_eq!(call.binding, binding);
    assert_eq!(call.capability_id, "wascc:blobstore");
    assert_eq!(call.operation, operation);
    assert_eq!(call.payload, payload);
}

#[test]
fn operation_names_match_the_codec() {
    assert_eq!(objectstore::OP_CREATE_CONTAINER, wire::OP_CREATE_CONTAINER);
    assert_eq!(objectstore::OP_REMOVE_CONTAINER, wire::OP_REMOVE_CONTAINER);
    assert_eq!(objectstore::OP_REMOVE_OBJECT, wire::OP_REMOVE_OBJECT);
    assert_eq!(objectstore::OP_LIST_OBJECTS, wire::OP_LIST_OBJECTS);
    assert_eq!(objectstore::OP_UPLOAD_CHUNK, wire::OP_UPLOAD_CHUNK);
    assert_eq!(objectstore::OP_START_DOWNLOAD, wire::OP_START_DOWNLOAD);
    assert_eq!(objectstore::OP_START_UPLOAD, wire::OP_START_UPLOAD);
    assert_eq!(objectstore::OP_RECEIVE_CHUNK, wire::OP_RECEIVE_CHUNK);
    assert_eq!(objectstore::OP_GET_OBJECT_INFO, wire::OP_GET_OBJECT_INFO);
}

#[test]
fn default_client_addresses_the_default_binding() {
    let call = objectstore::default().create_container_request("docs").unwrap();
    assert_eq!(call.binding, "default");
    let call = ObjectStoreHostBinding::default().create_container_request("docs").unwrap();
    assert_eq!(call.binding, "default");
}

#[test]
fn create_container_request_carries_the_container() {
    let call = objectstore::host("backup").create_container_request("docs").unwrap();
    let payload = wascc_codec::serialize(wire::Container { id: "docs".to_string() }).unwrap();
    expect_call(&call, "backup", "CreateContainer", payload);
}

#[test]
fn create_container_response_returns_the_container() {
    let reply = wascc_codec::serialize(wire::Container { id: "docs-1".to_string() }).unwrap();
    let made = ObjectStoreHostBinding::create_container_response(Ok(reply)).unwrap();
    assert_eq!(made, Container { id: "docs-1".to_string() });
}

#[test]
fn remove_container_request_carries_the_container() {
    let call = objectstore::host("backup").remove_container_request("docs").unwrap();
    let payload = wascc_codec::serialize(wire::Container { id: "docs".to_string() }).unwrap();
    expect_call(&call, "backup", "RemoveContainer", payload);
}

#[test]
fn remove_object_request_names_the_object_without_a_size() {
    let call = objectstore::host("backup").remove_object_request("report.pdf", "docs").unwrap();
    let payload = wascc_codec::serialize(wire::Blob {
        id: "report.pdf".to_string(),
        container: "docs".to_string(),
        byte_size: 0,
    })
    .unwrap();
    expect_call(&call, "backup", "RemoveObject", payload);
}

#[test]
fn list_objects_request_carries_the_container() {
    let call = objectstore::host("backup").list_objects_request("docs").unwrap();
    let payload = wascc_codec::serialize(wire::Container { id: "docs".to_string() }).unwrap();
    expect_call(&call, "backup", "ListObjects", payload);
}

#[test]
fn list_objects_response_keeps_the_order_of_the_reply() {
    let reply = wascc_codec::serialize(wire::BlobList {
        blobs: vec![
            wire::Blob { id: "b".to_string(), container: "docs".to_string(), byte_size: 2 },
            wire::Blob { id: "a".to_string(), container: "docs".to_string(), byte_size: 1 },
        ],
    })
    .unwrap();
    let listed = ObjectStoreHostBinding::list_objects_response(Ok(reply)).unwrap();
    assert_eq!(
        listed,
        BlobList {
            blobs: vec![
                Blob { id: "b".to_string(), container: "docs".to_string(), byte_size: 2 },
                Blob { id: "a".to_string(), container: "docs".to_string(), byte_size: 1 },
            ],
        }
    );
}

#[test]
fn get_blob_info_request_names_the_object_without_a_size() {
    let call = objectstore::host("backup").get_blob_info_request("docs", "report.pdf").unwrap();
    let payload = wascc_codec::serialize(wire::Blob {
        id: "report.pdf".to_string(),
        container: "docs".to_string(),
        byte_size: 0,
    })
    .unwrap();
    expect_call(&call, "backup", "GetObjectInfo", payload);
}

#[test]
fn get_blob_info_finds_nothing_behind_an_empty_id() {
    let reply = wascc_codec::serialize(wire::Blob {
        id: String::new(),
        container: "docs".to_string(),
        byte_size: 0,
    })
    .unwrap();
    let found = ObjectStoreHostBinding::get_blob_info_response(Ok(reply));
    assert!(matches!(found, Ok(None)));
}

#[test]
fn get_blob_info_returns_the_stored_blob() {
    let stored = wire::Blob {
        id: "report.pdf".to_string(),
        container: "docs".to_string(),
        byte_size: 10,
    };
    let reply = wascc_codec::serialize(stored).unwrap();
    let found = ObjectStoreHostBinding::get_blob_info_response(Ok(reply)).unwrap().unwrap();
    assert_eq!(found.id, "report.pdf");
    assert_eq!(found.container, "docs");
    assert_eq!(found.byte_size, 10);
}

#[test]
fn transfer_plan_counts_whole_chunks() {
    let blob = sample_blob();
    assert_eq!(
        Transfer::plan(&blob, 3, 10),
        Transfer {
            blob_id: "report.pdf".to_string(),
            container: "docs".to_string(),
            chunk_size: 3,
            total_size: 10,
            total_chunks: 3,
        }
    );
    assert_eq!(
        Transfer::plan(&blob, 3, 9),
        Transfer {
            blob_id: "report.pdf".to_string(),
            container: "docs".to_string(),
            chunk_size: 3,
            total_size: 9,
            total_chunks: 3,
        }
    );
}

#[test]
fn transfer_plan_edge_cases() {
    let blob = sample_blob();
    assert_eq!(Transfer::plan(&blob, 4, 0).total_chunks, 0);
    assert_eq!(Transfer::plan(&blob, 4, 3).total_chunks, 0);
    assert_eq!(Transfer::plan(&blob, 1, 7).total_chunks, 7);
    assert_eq!(Transfer::plan(&blob, u64::MAX, u64::MAX).total_chunks, 1);
    let plan = Transfer::plan(&blob, 1024, 53400);
    assert_eq!(plan.total_chunks, 52);
    assert!(plan.total_chunks * plan.chunk_size <= plan.total_size);
    assert!(plan.total_size - plan.total_chunks * plan.chunk_size < plan.chunk_size);
}

#[test]
fn start_upload_request_announces_the_sizes() {
    let call = objectstore::host("backup").start_upload_request(&sample_blob(), 3, 10).unwrap();
    let payload = wascc_codec::serialize(wire::FileChunk {
        sequence_no: 0,
        container: "docs".to_string(),
        id: "report.pdf".to_string(),
        total_bytes: 10,
        chunk_size: 3,
        chunk_bytes: vec![],
    })
    .unwrap();
    expect_call(&call, "backup", "StartUpload", payload);
}

#[test]
fn start_upload_yields_the_plan_once_acknowledged() {
    let plan = Transfer::plan(&sample_blob(), 3, 10);
    let started = ObjectStoreHostBinding::transfer_response(plan, Ok(vec![])).unwrap();
    assert_eq!(started.total_chunks, 3);
    assert_eq!(started.total_size, 10);
    assert_eq!(started.chunk_size, 3);
    assert_eq!(started.blob_id, "report.pdf");
    assert_eq!(started.container, "docs");
    let plan = Transfer::plan(&sample_blob(), 3, 9);
    let started = ObjectStoreHostBinding::transfer_response(plan, Ok(vec![1, 2, 3])).unwrap();
    assert_eq!(started.total_chunks, 3);
    assert_eq!(started.total_size, 9);
}

#[test]
fn start_upload_fails_with_the_transport() {
    let plan = Transfer::plan(&sample_blob(), 3, 10);
    let failed = ObjectStoreHostBinding::transfer_response(plan, Err(host_failure("no store")));
    assert!(matches!(failed.unwrap_err().kind(), ErrorKind::WapcError(_)));
}

#[test]
fn upload_chunk_request_uses_the_callers_sequence_number() {
    let plan = Transfer::plan(&sample_blob(), 3, 10);
    let store = objectstore::host("backup");
    let call = store.upload_chunk_request(&plan, 7, &[9, 8, 7]).unwrap();
    let payload = wascc_codec::serialize(wire::FileChunk {
        sequence_no: 7,
        container: "docs".to_string(),
        id: "report.pdf".to_string(),
        total_bytes: 10,
        chunk_size: 3,
        chunk_bytes: vec![9, 8, 7],
    })
    .unwrap();
    expect_call(&call, "backup", "UploadChunk", payload);
    let again = store.upload_chunk_request(&plan, 7, &[9, 8, 7]).unwrap();
    assert_eq!(again, call);
}

#[test]
fn start_download_request_carries_the_chunk_size() {
    let call = objectstore::host("backup").start_download_request(&sample_blob(), 4).unwrap();
    let payload = wascc_codec::serialize(wire::StreamRequest {
        id: "report.pdf".to_string(),
        container: "docs".to_string(),
        chunk_size: 4,
    })
    .unwrap();
    expect_call(&call, "backup", "StartDownload", payload);
}

#[test]
fn download_plan_is_made_of_the_blobs_size() {
    let blob = sample_blob();
    let plan = Transfer::plan(&blob, 4, blob.byte_size);
    let started = ObjectStoreHostBinding::transfer_response(plan, Ok(vec![])).unwrap();
    assert_eq!(started.total_size, 10);
    assert_eq!(started.total_chunks, 2);
    assert_eq!(started.chunk_size, 4);
}

#[test]
fn transport_failure_is_not_a_serialization_failure() {
    let failed = ObjectStoreHostBinding::get_blob_info_response(Err(host_failure("down")));
    assert!(matches!(failed.unwrap_err().kind(), ErrorKind::WapcError(_)));
    let corrupt = ObjectStoreHostBinding::get_blob_info_response(Ok(vec![0xc1, 0xff]));
    assert!(matches!(corrupt.unwrap_err().kind(), ErrorKind::Serialization(_)));
    let corrupt = ObjectStoreHostBinding::create_container_response(Ok(vec![]));
    assert!(matches!(corrupt.unwrap_err().kind(), ErrorKind::Serialization(_)));
    let corrupt = ObjectStoreHostBinding::list_objects_response(Ok(vec![0x01]));
    assert!(matches!(corrupt.unwrap_err().kind(), ErrorKind::Serialization(_)));
    let failed = ObjectStoreHostBinding::list_objects_response(Err(host_failure("down")));
    assert!(matches!(failed.unwrap_err().kind(), ErrorKind::WapcError(_)));
    let failed = ObjectStoreHostBinding::create_container_response(Err(host_failure("down")));
    assert!(matches!(failed.unwrap_err().kind(), ErrorKind::WapcError(_)));
}
