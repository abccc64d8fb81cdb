//! The calls into the codec. Each function here turns plain values into one of the
//! codec's structs and serializes it, or deserializes one and hands its fields back.
//! None of the bodies is verified: the contracts say which [`Message`] the bytes stand
//! for, in the terms of [`encoding`] and [`decoding`], and the facades build on that.

use crate::events::Event;
use crate::objectstore::{Blob, BlobList, Container};
use crate::wire::{decoding, encoded, encoding, found, refused, BlobView, Message, Shape};
use std::collections::HashMap;
use vstd::prelude::*;

verus! {

/// `wascc_codec::serialize` of a `blobstore::Container` with the given id. The result is
/// the encoding of that message.
#[verifier::external_body]
pub(crate) fn encode_container(id: &str) -> (r: Result<Vec<u8>, String>)
    ensures
        encoded(r) == encoding(Message::Container { id: id@ }),
{
    let cmd = wascc_codec::blobstore::Container { id: id.to_string() };
    match wascc_codec::serialize(cmd) {
        Ok(bytes) => Ok(bytes),
        Err(e) => Err(e.to_string()),
    }
}

/// `wascc_codec::serialize` of a `blobstore::Blob` with the given fields. The result is
/// the encoding of that message.
#[verifier::external_body]
pub(crate) fn encode_blob(id: &str, container: &str, byte_size: u64) -> (r: Result<
    Vec<u8>,
    String,
>)
    ensures
        encoded(r) == encoding(
            Message::Blob(BlobView { id: id@, container: container@, byte_size }),
        ),
{
    let cmd = wascc_codec::blobstore::Blob {
        id: id.to_string(),
        container: container.to_string(),
        byte_size,
    };
    match wascc_codec::serialize(cmd) {
        Ok(bytes) => Ok(bytes),
        Err(e) => Err(e.to_string()),
    }
}

/// `wascc_codec::serialize` of a `blobstore::FileChunk` with the given fields. The result
/// is the encoding of that message.
#[verifier::external_body]
pub(crate) fn encode_file_chunk(
    sequence_no: u64,
    container: &str,
    id: &str,
    total_bytes: u64,
    chunk_size: u64,
    chunk_bytes: &[u8],
) -> (r: Result<Vec<u8>, String>)
    ensures
        encoded(r) == encoding(
            Message::FileChunk {
                sequence_no,
                container: container@,
                id: id@,
                total_bytes,
                chunk_size,
                chunk_bytes: chunk_bytes@,
            },
        ),
{
    let cmd = wascc_codec::blobstore::FileChunk {
        sequence_no,
        container: container.to_string(),
        id: id.to_string(),
        total_bytes,
        chunk_size,
        chunk_bytes: chunk_bytes.to_vec(),
    };
    match wascc_codec::serialize(cmd) {
        Ok(bytes) => Ok(bytes),
        Err(e) => Err(e.to_string()),
    }
}

/// `wascc_codec::serialize` of a `blobstore::StreamRequest` with the given fields. The
/// result is the encoding of that message.
#[verifier::external_body]
pub(crate) fn encode_stream_request(id: &str, container: &str, chunk_size: u64) -> (r: Result<
    Vec<u8>,
    String,
>)
    ensures
        encoded(r) == encoding(
            Message::StreamRequest { id: id@, container: container@, chunk_size },
        ),
{
    let cmd = wascc_codec::blobstore::StreamRequest {
        id: id.to_string(),
        container: container.to_string(),
        chunk_size,
    };
    match wascc_codec::serialize(cmd) {
        Ok(bytes) => Ok(bytes),
        Err(e) => Err(e.to_string()),
    }
}

/// `wascc_codec::deserialize` of the bytes as a `blobstore::Container`. The result is the
/// decoding of the bytes in that shape.
#[verifier::external_body]
pub(crate) fn decode_container(bytes: &[u8]) -> (r: Result<Container, String>)
    ensures
        decoding(Shape::Container, bytes@) == match r {
            Ok(c) => found(Message::Container { id: c.id@ }),
            Err(words) => refused(words),
        },
{
    match wascc_codec::deserialize::<wascc_codec::blobstore::Container>(bytes) {
        Ok(c) => Ok(Container { id: c.id }),
        Err(e) => Err(e.to_string()),
    }
}

/// `wascc_codec::deserialize` of the bytes as a `blobstore::Blob`. The result is the
/// decoding of the bytes in that shape.
#[verifier::external_body]
pub(crate) fn decode_blob(bytes: &[u8]) -> (r: Result<Blob, String>)
    ensures
        decoding(Shape::Blob, bytes@) == match r {
            Ok(b) => found(Message::Blob(b@)),
            Err(words) => refused(words),
        },
{
    match wascc_codec::deserialize::<wascc_codec::blobstore::Blob>(bytes) {
        Ok(b) => Ok(Blob { id: b.id, container: b.container, byte_size: b.byte_size }),
        Err(e) => Err(e.to_string()),
    }
}

/// `wascc_codec::deserialize` of the bytes as a `blobstore::BlobList`. The result is the
/// decoding of the bytes in that shape, the blobs in the order of the list.
#[verifier::external_body]
pub(crate) fn decode_blob_list(bytes: &[u8]) -> (r: Result<BlobList, String>)
    ensures
        decoding(Shape::BlobList, bytes@) == match r {
            Ok(list) => found(Message::BlobList { blobs: list.blobs.deep_view() }),
            Err(words) => refused(words),
        },
{
    match wascc_codec::deserialize::<wascc_codec::blobstore::BlobList>(bytes) {
        Ok(list) => Ok(
            BlobList {
                blobs: list.blobs.into_iter().map(
                    |b| Blob { id: b.id, container: b.container, byte_size: b.byte_size },
                ).collect(),
            },
        ),
        Err(e) => Err(e.to_string()),
    }
}

/// `wascc_codec::serialize` of a `logging::WriteLogRequest` with the given fields. The
/// result is the encoding of that message.
#[verifier::external_body]
pub(crate) fn encode_write_log(level: u32, body: &str) -> (r: Result<Vec<u8>, String>)
    ensures
        encoded(r) == encoding(Message::WriteLogRequest { level, body: body@ }),
{
    let cmd = wascc_codec::logging::WriteLogRequest { level, body: body.to_string() };
    match wascc_codec::serialize(cmd) {
        Ok(bytes) => Ok(bytes),
        Err(e) => Err(e.to_string()),
    }
}

/// `wascc_codec::serialize` of a `keyvalue::GetRequest` with the given fields. The
/// result is the encoding of that message.
#[verifier::external_body]
pub(crate) fn encode_get(key: &str) -> (r: Result<Vec<u8>, String>)
    ensures
        encoded(r) == encoding(Message::GetRequest { key: key@ }),
{
    let cmd = wascc_codec::keyvalue::GetRequest { key: key.to_string() };
    match wascc_codec::serialize(cmd) {
        Ok(bytes) => Ok(bytes),
        Err(e) => Err(e.to_string()),
    }
}

/// `wascc_codec::serialize` of a `keyvalue::SetRequest` with the given fields. The
/// result is the encoding of that message.
#[verifier::external_body]
pub(crate) fn encode_set(key: &str, value: &str, expires_s: i32) -> (r: Result<Vec<u8>, String>)
    ensures
        encoded(r) == encoding(Message::SetRequest { key: key@, value: value@, expires_s }),
{
    let cmd = wascc_codec::keyvalue::SetRequest {
        key: key.to_string(),
        value: value.to_string(),
        expires_s,
    };
    match wascc_codec::serialize(cmd) {
        Ok(bytes) => Ok(bytes),
        Err(e) => Err(e.to_string()),
    }
}

/// `wascc_codec::serialize` of a `keyvalue::AddRequest` with the given fields. The
/// result is the encoding of that message.
#[verifier::external_body]
pub(crate) fn encode_add(key: &str, value: i32) -> (r: Result<Vec<u8>, String>)
    ensures
        encoded(r) == encoding(Message::AddRequest { key: key@, value }),
{
    let cmd = wascc_codec::keyvalue::AddRequest { key: key.to_string(), value };
    match wascc_codec::serialize(cmd) {
        Ok(bytes) => Ok(bytes),
        Err(e) => Err(e.to_string()),
    }
}

/// `wascc_codec::serialize` of a `keyvalue::DelRequest` with the given fields. The
/// result is the encoding of that message.
#[verifier::external_body]
pub(crate) fn encode_del(key: &str) -> (r: Result<Vec<u8>, String>)
    ensures
        encoded(r) == encoding(Message::DelRequest { key: key@ }),
{
    let cmd = wascc_codec::keyvalue::DelRequest { key: key.to_string() };
    match wascc_codec::serialize(cmd) {
        Ok(bytes) => Ok(bytes),
        Err(e) => Err(e.to_string()),
    }
}

/// `wascc_codec::serialize` of a `keyvalue::ListPushRequest` with the given fields. The
/// result is the encoding of that message.
#[verifier::external_body]
pub(crate) fn encode_list_push(key: &str, value: &str) -> (r: Result<Vec<u8>, String>)
    ensures
        encoded(r) == encoding(Message::ListPushRequest { key: key@, value: value@ }),
{
    let cmd = wascc_codec::keyvalue::ListPushRequest {
        key: key.to_string(),
        value: value.to_string(),
    };
    match wascc_codec::serialize(cmd) {
        Ok(bytes) => Ok(bytes),
        Err(e) => Err(e.to_string()),
    }
}

/// `wascc_codec::serialize` of a `keyvalue::ListDelItemRequest` with the given fields. The
/// result is the encoding of that message.
#[verifier::external_body]
pub(crate) fn encode_list_del_item(key: &str, value: &str) -> (r: Result<Vec<u8>, String>)
    ensures
        encoded(r) == encoding(Message::ListDelItemRequest { key: key@, value: value@ }),
{
    let cmd = wascc_codec::keyvalue::ListDelItemRequest {
        key: key.to_string(),
        value: value.to_string(),
    };
    match wascc_codec::serialize(cmd) {
        Ok(bytes) => Ok(bytes),
        Err(e) => Err(e.to_string()),
    }
}

/// `wascc_codec::serialize` of a `keyvalue::SetAddRequest` with the given fields. The
/// result is the encoding of that message.
#[verifier::external_body]
pub(crate) fn encode_set_add(key: &str, value: &str) -> (r: Result<Vec<u8>, String>)
    ensures
        encoded(r) == encoding(Message::SetAddRequest { key: key@, value: value@ }),
{
    let cmd = wascc_codec::keyvalue::SetAddRequest {
        key: key.to_string(),
        value: value.to_string(),
    };
    match wascc_codec::serialize(cmd) {
        Ok(bytes) => Ok(bytes),
        Err(e) => Err(e.to_string()),
    }
}

/// `wascc_codec::serialize` of a `keyvalue::SetRemoveRequest` with the given fields. The
/// result is the encoding of that message.
#[verifier::external_body]
pub(crate) fn encode_set_remove(key: &str, value: &str) -> (r: Result<Vec<u8>, String>)
    ensures
        encoded(r) == encoding(Message::SetRemoveRequest { key: key@, value: value@ }),
{
    let cmd = wascc_codec::keyvalue::SetRemoveRequest {
        key: key.to_string(),
        value: value.to_string(),
    };
    match wascc_codec::serialize(cmd) {
        Ok(bytes) => Ok(bytes),
        Err(e) => Err(e.to_string()),
    }
}

/// `wascc_codec::serialize` of a `keyvalue::ListClearRequest` with the given fields. The
/// result is the encoding of that message.
#[verifier::external_body]
pub(crate) fn encode_list_clear(key: &str) -> (r: Result<Vec<u8>, String>)
    ensures
        encoded(r) == encoding(Message::ListClearRequest { key: key@ }),
{
    let cmd = wascc_codec::keyvalue::ListClearRequest { key: key.to_string() };
    match wascc_codec::serialize(cmd) {
        Ok(bytes) => Ok(bytes),
        Err(e) => Err(e.to_string()),
    }
}

/// `wascc_codec::serialize` of a `keyvalue::SetQueryRequest` with the given fields. The
/// result is the encoding of that message.
#[verifier::external_body]
pub(crate) fn encode_set_query(key: &str) -> (r: Result<Vec<u8>, String>)
    ensures
        encoded(r) == encoding(Message::SetQueryRequest { key: key@ }),
{
    let cmd = wascc_codec::keyvalue::SetQueryRequest { key: key.to_string() };
    match wascc_codec::serialize(cmd) {
        Ok(bytes) => Ok(bytes),
        Err(e) => Err(e.to_string()),
    }
}

/// `wascc_codec::serialize` of a `keyvalue::KeyExistsQuery` with the given fields. The
/// result is the encoding of that message.
#[verifier::external_body]
pub(crate) fn encode_key_exists(key: &str) -> (r: Result<Vec<u8>, String>)
    ensures
        encoded(r) == encoding(Message::KeyExistsQuery { key: key@ }),
{
    let cmd = wascc_codec::keyvalue::KeyExistsQuery { key: key.to_string() };
    match wascc_codec::serialize(cmd) {
        Ok(bytes) => Ok(bytes),
        Err(e) => Err(e.to_string()),
    }
}

/// `wascc_codec::serialize` of a `keyvalue::ListRangeRequest` with the given fields. The
/// result is the encoding of that message.
#[verifier::external_body]
pub(crate) fn encode_list_range(key: &str, start: i32, stop: i32) -> (r: Result<Vec<u8>, String>)
    ensures
        encoded(r) == encoding(Message::ListRangeRequest { key: key@, start, stop }),
{
    let cmd = wascc_codec::keyvalue::ListRangeRequest { key: key.to_string(), start, stop };
    match wascc_codec::serialize(cmd) {
        Ok(bytes) => Ok(bytes),
        Err(e) => Err(e.to_string()),
    }
}

/// `wascc_codec::serialize` of a `keyvalue::SetUnionRequest` with the given fields. The
/// result is the encoding of that message.
#[verifier::external_body]
pub(crate) fn encode_set_union(keys: &Vec<String>) -> (r: Result<Vec<u8>, String>)
    ensures
        encoded(r) == encoding(Message::SetUnionRequest { keys: keys.deep_view() }),
{
    let cmd = wascc_codec::keyvalue::SetUnionRequest { keys: keys.clone() };
    match wascc_codec::serialize(cmd) {
        Ok(bytes) => Ok(bytes),
        Err(e) => Err(e.to_string()),
    }
}

/// `wascc_codec::serialize` of a `keyvalue::SetIntersectionRequest` with the given fields. The
/// result is the encoding of that message.
#[verifier::external_body]
pub(crate) fn encode_set_intersection(keys: &Vec<String>) -> (r: Result<Vec<u8>, String>)
    ensures
        encoded(r) == encoding(Message::SetIntersectionRequest { keys: keys.deep_view() }),
{
    let cmd = wascc_codec::keyvalue::SetIntersectionRequest { keys: keys.clone() };
    match wascc_codec::serialize(cmd) {
        Ok(bytes) => Ok(bytes),
        Err(e) => Err(e.to_string()),
    }
}

/// `wascc_codec::serialize` of a `messaging::BrokerMessage` with the given fields. The
/// result is the encoding of that message.
#[verifier::external_body]
pub(crate) fn encode_broker_message(subject: &str, reply_to: &str, body: &[u8]) -> (r: Result<
    Vec<u8>,
    String,
>)
    ensures
        encoded(r) == encoding(
            Message::BrokerMessage { subject: subject@, reply_to: reply_to@, body: body@ },
        ),
{
    let cmd = wascc_codec::messaging::BrokerMessage {
        subject: subject.to_string(),
        reply_to: reply_to.to_string(),
        body: body.to_vec(),
    };
    match wascc_codec::serialize(cmd) {
        Ok(bytes) => Ok(bytes),
        Err(e) => Err(e.to_string()),
    }
}

/// `wascc_codec::serialize` of a `messaging::RequestMessage` with the given fields. The
/// result is the encoding of that message.
#[verifier::external_body]
pub(crate) fn encode_request_message(subject: &str, body: &[u8], timeout_ms: i64) -> (r: Result<
    Vec<u8>,
    String,
>)
    ensures
        encoded(r) == encoding(
            Message::RequestMessage { subject: subject@, body: body@, timeout_ms },
        ),
{
    let cmd = wascc_codec::messaging::RequestMessage {
        subject: subject.to_string(),
        body: body.to_vec(),
        timeout_ms,
    };
    match wascc_codec::serialize(cmd) {
        Ok(bytes) => Ok(bytes),
        Err(e) => Err(e.to_string()),
    }
}

/// `wascc_codec::serialize` of an `extras::GeneratorRequest` with the given fields. The
/// result is the encoding of that message.
#[verifier::external_body]
pub(crate) fn encode_generator_request(
    guid: bool,
    sequence: bool,
    random: bool,
    min: u32,
    max: u32,
) -> (r: Result<Vec<u8>, String>)
    ensures
        encoded(r) == encoding(Message::GeneratorRequest { guid, sequence, random, min, max }),
{
    let cmd = wascc_codec::extras::GeneratorRequest { guid, sequence, random, min, max };
    match wascc_codec::serialize(cmd) {
        Ok(bytes) => Ok(bytes),
        Err(e) => Err(e.to_string()),
    }
}

/// `wascc_codec::serialize` of an `eventstreams::StreamQuery` with the given fields, the
/// time range as a `TimeRange` from its first number to its second. The result is the
/// encoding of that message.
#[verifier::external_body]
pub(crate) fn encode_stream_query(stream_id: &str, range: Option<(u64, u64)>, count: u64) -> (r:
    Result<Vec<u8>, String>)
    ensures
        encoded(r) == encoding(Message::StreamQuery { stream_id: stream_id@, range, count }),
{
    let cmd = wascc_codec::eventstreams::StreamQuery {
        stream_id: stream_id.to_string(),
        range: range.map(
            |(min_time, max_time)| wascc_codec::eventstreams::TimeRange { min_time, max_time },
        ),
        count,
    };
    match wascc_codec::serialize(cmd) {
        Ok(bytes) => Ok(bytes),
        Err(e) => Err(e.to_string()),
    }
}

/// `wascc_codec::serialize` of an `eventstreams::Event` with the given fields. The codec
/// writes the values in the order in which the map hands them out, which is not the same
/// from one run to the next: nothing is claimed of the bytes.
#[verifier::external_body]
pub(crate) fn encode_event(event_id: &str, stream: &str, values: &HashMap<String, String>) -> (r:
    Result<Vec<u8>, String>) {
    let cmd = wascc_codec::eventstreams::Event {
        event_id: event_id.to_string(),
        stream: stream.to_string(),
        values: values.clone(),
    };
    match wascc_codec::serialize(cmd) {
        Ok(bytes) => Ok(bytes),
        Err(e) => Err(e.to_string()),
    }
}

/// `wascc_codec::deserialize` of the bytes as a `keyvalue::GetResponse`. The result is the
/// decoding of the bytes in that shape.
#[verifier::external_body]
pub(crate) fn decode_get_response(bytes: &[u8]) -> (r: Result<(String, bool), String>)
    ensures
        decoding(Shape::GetResponse, bytes@) == match r {
            Ok(v) => found(Message::GetResponse { value: v.0@, exists: v.1 }),
            Err(words) => refused(words),
        },
{
    match wascc_codec::deserialize::<wascc_codec::keyvalue::GetResponse>(bytes) {
        Ok(m) => Ok((m.value, m.exists)),
        Err(e) => Err(e.to_string()),
    }
}

/// `wascc_codec::deserialize` of the bytes as a `keyvalue::AddResponse`. The result is the
/// decoding of the bytes in that shape.
#[verifier::external_body]
pub(crate) fn decode_add_response(bytes: &[u8]) -> (r: Result<i32, String>)
    ensures
        decoding(Shape::AddResponse, bytes@) == match r {
            Ok(v) => found(Message::AddResponse { value: v }),
            Err(words) => refused(words),
        },
{
    match wascc_codec::deserialize::<wascc_codec::keyvalue::AddResponse>(bytes) {
        Ok(m) => Ok(m.value),
        Err(e) => Err(e.to_string()),
    }
}

/// `wascc_codec::deserialize` of the bytes as a `keyvalue::ListResponse`. The result is the
/// decoding of the bytes in that shape.
#[verifier::external_body]
pub(crate) fn decode_list_response(bytes: &[u8]) -> (r: Result<i32, String>)
    ensures
        decoding(Shape::ListResponse, bytes@) == match r {
            Ok(v) => found(Message::ListResponse { new_count: v }),
            Err(words) => refused(words),
        },
{
    match wascc_codec::deserialize::<wascc_codec::keyvalue::ListResponse>(bytes) {
        Ok(m) => Ok(m.new_count),
        Err(e) => Err(e.to_string()),
    }
}

/// `wascc_codec::deserialize` of the bytes as a `keyvalue::ListRangeResponse`. The result is the
/// decoding of the bytes in that shape.
#[verifier::external_body]
pub(crate) fn decode_list_range_response(bytes: &[u8]) -> (r: Result<Vec<String>, String>)
    ensures
        decoding(Shape::ListRangeResponse, bytes@) == match r {
            Ok(v) => found(Message::ListRangeResponse { values: v.deep_view() }),
            Err(words) => refused(words),
        },
{
    match wascc_codec::deserialize::<wascc_codec::keyvalue::ListRangeResponse>(bytes) {
        Ok(m) => Ok(m.values),
        Err(e) => Err(e.to_string()),
    }
}

/// `wascc_codec::deserialize` of the bytes as a `keyvalue::SetOperationResponse`. The result is the
/// decoding of the bytes in that shape.
#[verifier::external_body]
pub(crate) fn decode_set_operation_response(bytes: &[u8]) -> (r: Result<i32, String>)
    ensures
        decoding(Shape::SetOperationResponse, bytes@) == match r {
            Ok(v) => found(Message::SetOperationResponse { new_count: v }),
            Err(words) => refused(words),
        },
{
    match wascc_codec::deserialize::<wascc_codec::keyvalue::SetOperationResponse>(bytes) {
        Ok(m) => Ok(m.new_count),
        Err(e) => Err(e.to_string()),
    }
}

/// `wascc_codec::deserialize` of the bytes as a `keyvalue::SetQueryResponse`. The result is the
/// decoding of the bytes in that shape.
#[verifier::external_body]
pub(crate) fn decode_set_query_response(bytes: &[u8]) -> (r: Result<Vec<String>, String>)
    ensures
        decoding(Shape::SetQueryResponse, bytes@) == match r {
            Ok(v) => found(Message::SetQueryResponse { values: v.deep_view() }),
            Err(words) => refused(words),
        },
{
    match wascc_codec::deserialize::<wascc_codec::keyvalue::SetQueryResponse>(bytes) {
        Ok(m) => Ok(m.values),
        Err(e) => Err(e.to_string()),
    }
}

/// `wascc_codec::deserialize` of the bytes as a `extras::GeneratorResult`. The result is the
/// decoding of the bytes in that shape.
#[verifier::external_body]
pub(crate) fn decode_generator_result(bytes: &[u8]) -> (r: Result<
    (Option<String>, u64, u32),
    String,
>)
    ensures
        decoding(Shape::GeneratorResult, bytes@) == match r {
            Ok(v) => found(Message::GeneratorResult {
                guid: v.0.deep_view(),
                sequence_number: v.1,
                random_number: v.2,
            }),
            Err(words) => refused(words),
        },
{
    match wascc_codec::deserialize::<wascc_codec::extras::GeneratorResult>(bytes) {
        Ok(m) => Ok((m.guid, m.sequence_number, m.random_number)),
        Err(e) => Err(e.to_string()),
    }
}

/// `wascc_codec::deserialize` of the bytes as a `eventstreams::WriteResponse`. The result is the
/// decoding of the bytes in that shape.
#[verifier::external_body]
pub(crate) fn decode_write_response(bytes: &[u8]) -> (r: Result<String, String>)
    ensures
        decoding(Shape::WriteResponse, bytes@) == match r {
            Ok(v) => found(Message::WriteResponse { event_id: v@ }),
            Err(words) => refused(words),
        },
{
    match wascc_codec::deserialize::<wascc_codec::eventstreams::WriteResponse>(bytes) {
        Ok(m) => Ok(m.event_id),
        Err(e) => Err(e.to_string()),
    }
}

/// `wascc_codec::deserialize` of the bytes as an `eventstreams::StreamResults`. The result
/// is the decoding of the bytes in that shape, the events in the order of the reply.
#[verifier::external_body]
pub(crate) fn decode_stream_results(bytes: &[u8]) -> (r: Result<Vec<Event>, String>)
    ensures
        decoding(Shape::StreamResults, bytes@) == match r {
            Ok(v) => found(Message::StreamResults { events: v.deep_view() }),
            Err(words) => refused(words),
        },
{
    match wascc_codec::deserialize::<wascc_codec::eventstreams::StreamResults>(bytes) {
        Ok(m) => Ok(
            m.events.into_iter().map(
                |e| Event { event_id: e.event_id, stream: e.stream, values: e.values },
            ).collect(),
        ),
        Err(e) => Err(e.to_string()),
    }
}

} // verus!
