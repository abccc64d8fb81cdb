//! The vocabulary of the wire: the capability families, and the messages that travel to
//! and from the host, as mathematical values.
//!
//! The bytes of a message are the codec's business. This module only names them:
//! [`encoding`] for the bytes of a message, [`decoding`] for the message in some bytes.

use vstd::prelude::*;

verus! {

/// The capability family of key-value stores.
pub const CAPID_KEYVALUE: &'static str = "wascc:keyvalue";

/// The capability family of message brokers.
pub const CAPID_MESSAGING: &'static str = "wascc:messaging";

/// The capability family of blob stores.
pub const CAPID_BLOBSTORE: &'static str = "wascc:blobstore";

/// The capability family reserved for logging.
pub const CAPID_LOGGING: &'static str = "wascc:logging";

/// The capability family of identifiers, sequence numbers and random numbers.
pub const CAPID_EXTRAS: &'static str = "wascc:extras";

/// The capability family of append-only event streams.
pub const CAPID_EVENTSTREAMS: &'static str = "wascc:eventstreams";

/// The name of the provider instance that a client addresses unless told otherwise.
pub const DEFAULT_BINDING: &'static str = "default";

/// The capability ids that the clients of this crate address.
pub open spec fn is_capability_id(id: Seq<char>) -> bool {
    ||| id == CAPID_KEYVALUE@
    ||| id == CAPID_MESSAGING@
    ||| id == CAPID_BLOBSTORE@
    ||| id == CAPID_LOGGING@
    ||| id == CAPID_EXTRAS@
    ||| id == CAPID_EVENTSTREAMS@
}

/// A stored object's metadata.
pub struct BlobView {
    pub id: Seq<char>,
    pub container: Seq<char>,
    pub byte_size: u64,
}

/// One event of a stream.
pub struct EventView {
    pub event_id: Seq<char>,
    pub stream: Seq<char>,
    pub values: Map<Seq<char>, Seq<char>>,
}

/// A message of the wire, by the name and the fields that the codec gives it.
#[allow(inconsistent_fields)]
pub enum Message {
    Container { id: Seq<char> },
    Blob(BlobView),
    BlobList { blobs: Seq<BlobView> },
    FileChunk {
        sequence_no: u64,
        container: Seq<char>,
        id: Seq<char>,
        total_bytes: u64,
        chunk_size: u64,
        chunk_bytes: Seq<u8>,
    },
    StreamRequest { id: Seq<char>, container: Seq<char>, chunk_size: u64 },
    WriteLogRequest { level: u32, body: Seq<char> },
    GetRequest { key: Seq<char> },
    GetResponse { value: Seq<char>, exists: bool },
    SetRequest { key: Seq<char>, value: Seq<char>, expires_s: i32 },
    DelRequest { key: Seq<char> },
    AddRequest { key: Seq<char>, value: i32 },
    AddResponse { value: i32 },
    ListPushRequest { key: Seq<char>, value: Seq<char> },
    ListDelItemRequest { key: Seq<char>, value: Seq<char> },
    ListClearRequest { key: Seq<char> },
    ListRangeRequest { key: Seq<char>, start: i32, stop: i32 },
    ListRangeResponse { values: Seq<Seq<char>> },
    ListResponse { new_count: i32 },
    SetAddRequest { key: Seq<char>, value: Seq<char> },
    SetRemoveRequest { key: Seq<char>, value: Seq<char> },
    SetQueryRequest { key: Seq<char> },
    SetQueryResponse { values: Seq<Seq<char>> },
    SetIntersectionRequest { keys: Seq<Seq<char>> },
    SetUnionRequest { keys: Seq<Seq<char>> },
    SetOperationResponse { new_count: i32 },
    KeyExistsQuery { key: Seq<char> },
    BrokerMessage { subject: Seq<char>, reply_to: Seq<char>, body: Seq<u8> },
    RequestMessage { subject: Seq<char>, body: Seq<u8>, timeout_ms: i64 },
    GeneratorRequest { guid: bool, sequence: bool, random: bool, min: u32, max: u32 },
    GeneratorResult { guid: Option<Seq<char>>, sequence_number: u64, random_number: u32 },
    WriteResponse { event_id: Seq<char> },
    StreamQuery { stream_id: Seq<char>, range: Option<(u64, u64)>, count: u64 },
    StreamResults { events: Seq<EventView> },
}

/// Which message a reply is read as.
pub enum Shape {
    Container,
    Blob,
    BlobList,
    GetResponse,
    AddResponse,
    ListRangeResponse,
    ListResponse,
    SetQueryResponse,
    SetOperationResponse,
    GeneratorResult,
    WriteResponse,
    StreamResults,
}

/// What the codec's `serialize` returns for a message: its bytes, or the words of the
/// codec's refusal.
pub uninterp spec fn encoding(message: Message) -> Result<Seq<u8>, Seq<char>>;

/// What the codec's `deserialize` returns for some bytes that are read as a message of
/// the given shape: the message, or the words of the codec's refusal.
pub uninterp spec fn decoding(shape: Shape, bytes: Seq<u8>) -> Result<Message, Seq<char>>;

/// The mathematical value of what an encoder hands back.
pub open spec fn encoded(r: Result<Vec<u8>, String>) -> Result<Seq<u8>, Seq<char>> {
    match r {
        Ok(bytes) => Ok(bytes@),
        Err(words) => Err(words@),
    }
}

/// The refusal of the codec, as the value of [`decoding`].
pub open spec fn refused(words: String) -> Result<Message, Seq<char>> {
    Err(words@)
}

/// The message that the codec found, as the value of [`decoding`].
pub open spec fn found(message: Message) -> Result<Message, Seq<char>> {
    Ok(message)
}

} // verus!
