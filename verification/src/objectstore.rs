//! The client of the blob store capability.
//!
//! Every operation is one round trip: a request is encoded and wrapped in an
//! [`Invocation`], the host is called once, and the reply is read. The `*_request` and
//! `*_response` functions are the two ends of that trip. They depend on their arguments
//! alone; the method between them adds nothing but the call.

use crate::codec;
use crate::errors::{new, Error, ErrorKind, ErrorView};
use crate::transport::{
    acknowledged, answer, host_call, outcome, prepare, round_trip, spec_acknowledged,
    spec_prepare, spec_read, Invocation, InvocationView,
};
use crate::wire::{
    decoding, encoding, found, BlobView, Message, Shape, CAPID_BLOBSTORE, DEFAULT_BINDING,
};
use crate::ObjectStore;
use vstd::prelude::*;
use wapc_guest::errors::Error as HostFailure;

verus! {

/// Sends a container, gets a container back.
pub const OP_CREATE_CONTAINER: &'static str = "CreateContainer";

/// Sends a container; no error means success.
pub const OP_REMOVE_CONTAINER: &'static str = "RemoveContainer";

/// Sends a blob; no error means success.
pub const OP_REMOVE_OBJECT: &'static str = "RemoveObject";

/// Sends a container, gets the list of its blobs back.
pub const OP_LIST_OBJECTS: &'static str = "ListObjects";

/// Sends one chunk of a blob; no error means success.
pub const OP_UPLOAD_CHUNK: &'static str = "UploadChunk";

/// Sends a stream request. The chunks arrive later, each as an inbound
/// [`OP_RECEIVE_CHUNK`].
pub const OP_START_DOWNLOAD: &'static str = "StartDownload";

/// Sends a chunk without bytes that announces an upload; no error means success.
pub const OP_START_UPLOAD: &'static str = "StartUpload";

/// The inbound operation that delivers one chunk of a download.
pub const OP_RECEIVE_CHUNK: &'static str = "ReceiveChunk";

/// Sends a blob that names an object, gets the object's metadata back.
pub const OP_GET_OBJECT_INFO: &'static str = "GetObjectInfo";

/// A container of a blob store.
#[derive(Debug, Clone, PartialEq)]
pub struct Container {
    pub id: String,
}

impl DeepView for Container {
    type V = Seq<char>;

    open spec fn deep_view(&self) -> Seq<char> {
        self.id@
    }
}

/// Metadata of a stored object, not its bytes.
#[derive(Debug, Clone, PartialEq)]
pub struct Blob {
    /// The id of the object, unique in its container.
    pub id: String,
    /// The container that holds the object.
    pub container: String,
    /// The size of the object in bytes.
    pub byte_size: u64,
}

impl View for Blob {
    type V = BlobView;

    open spec fn view(&self) -> BlobView {
        BlobView { id: self.id@, container: self.container@, byte_size: self.byte_size }
    }
}

impl DeepView for Blob {
    type V = BlobView;

    open spec fn deep_view(&self) -> BlobView {
        self@
    }
}

/// The objects of a container.
#[derive(Debug, Clone, PartialEq)]
pub struct BlobList {
    pub blobs: Vec<Blob>,
}

impl DeepView for BlobList {
    type V = Seq<BlobView>;

    open spec fn deep_view(&self) -> Seq<BlobView> {
        self.blobs.deep_view()
    }
}

/// The plan of a chunked transfer of one object.
#[derive(Debug, Clone, PartialEq)]
pub struct Transfer {
    /// The id of the object.
    pub blob_id: String,
    /// The container that holds the object.
    pub container: String,
    /// The size of a full chunk in bytes.
    pub chunk_size: u64,
    /// The size of the object in bytes.
    pub total_size: u64,
    /// The number of full chunks. Where the chunk size does not divide the total size,
    /// a last, shorter chunk follows them, which this number does not count.
    pub total_chunks: u64,
}

/// The mathematical value of a [`Transfer`].
pub struct TransferView {
    pub blob_id: Seq<char>,
    pub container: Seq<char>,
    pub chunk_size: u64,
    pub total_size: u64,
    pub total_chunks: u64,
}

impl View for Transfer {
    type V = TransferView;

    open spec fn view(&self) -> TransferView {
        TransferView {
            blob_id: self.blob_id@,
            container: self.container@,
            chunk_size: self.chunk_size,
            total_size: self.total_size,
            total_chunks: self.total_chunks,
        }
    }
}

impl DeepView for Transfer {
    type V = TransferView;

    open spec fn deep_view(&self) -> TransferView {
        self@
    }
}

/// The plan for moving `total_size` bytes of an object in chunks of `chunk_size` bytes:
/// as many chunks as fit whole.
pub open spec fn spec_transfer(
    blob_id: Seq<char>,
    container: Seq<char>,
    chunk_size: u64,
    total_size: u64,
) -> TransferView
    recommends
        chunk_size > 0,
{
    TransferView {
        blob_id,
        container,
        chunk_size,
        total_size,
        total_chunks: (total_size as int / chunk_size as int) as u64,
    }
}

/// The full chunks of a plan never hold more than the object, and what they leave over
/// is less than one chunk.
pub proof fn lemma_transfer_remainder(
    blob_id: Seq<char>,
    container: Seq<char>,
    chunk_size: u64,
    total_size: u64,
)
    requires
        chunk_size > 0,
    ensures
        ({
            let plan = spec_transfer(blob_id, container, chunk_size, total_size);
            &&& plan.total_chunks == total_size as int / chunk_size as int
            &&& plan.total_chunks * chunk_size <= total_size
            &&& total_size - plan.total_chunks * chunk_size < chunk_size
            &&& total_size - plan.total_chunks * chunk_size == total_size as int % (
            chunk_size as int)
        }),
{
    let q = total_size as int / chunk_size as int;
    assert(0 <= q <= total_size) by (nonlinear_arith)
        requires
            q == total_size as int / chunk_size as int,
            chunk_size > 0,
            total_size >= 0,
    ;
    assert(total_size as int == q * chunk_size + total_size as int % (chunk_size as int)) by (
        nonlinear_arith)
        requires
            q == total_size as int / chunk_size as int,
            chunk_size > 0,
    ;
    assert(0 <= total_size as int % (chunk_size as int) < chunk_size) by (nonlinear_arith)
        requires
            chunk_size > 0,
    ;
}

impl Transfer {
    /// Plans the transfer of `total_size` bytes of `blob` in chunks of `chunk_size` bytes.
    pub fn plan(blob: &Blob, chunk_size: u64, total_size: u64) -> (plan: Transfer)
        requires
            chunk_size > 0,
        ensures
            plan@ == spec_transfer(blob.id@, blob.container@, chunk_size, total_size),
            plan.total_chunks == total_size as int / chunk_size as int,
    {
        Transfer {
            blob_id: blob.id.clone(),
            container: blob.container.clone(),
            chunk_size,
            total_size,
            total_chunks: total_size / chunk_size,
        }
    }
}

/// A client of one blob store provider instance of the host.
pub struct ObjectStoreHostBinding {
    binding: String,
}

impl View for ObjectStoreHostBinding {
    type V = Seq<char>;

    closed spec fn view(&self) -> Seq<char> {
        self.binding@
    }
}

/// Creates a blob store client that addresses the provider instance `binding`.
pub fn host(binding: &str) -> (r: ObjectStoreHostBinding)
    ensures
        r@ == binding@,
{
    ObjectStoreHostBinding { binding: binding.to_string() }
}

/// Creates a blob store client that addresses the provider instance named `default`.
pub fn default() -> (r: ObjectStoreHostBinding)
    ensures
        r@ == DEFAULT_BINDING@,
{
    ObjectStoreHostBinding { binding: DEFAULT_BINDING.to_string() }
}

/// The request that carries `message` to the operation `operation` of the blob store
/// behind `binding`.
pub open spec fn spec_request(binding: Seq<char>, operation: Seq<char>, message: Message) -> Result<
    InvocationView,
    ErrorView,
> {
    spec_prepare(binding, CAPID_BLOBSTORE@, operation, encoding(message))
}

/// What a reply means that should hold a container.
pub open spec fn spec_container_response(reply: Result<Seq<u8>, HostFailure>) -> Result<
    Seq<char>,
    ErrorView,
> {
    spec_read(Shape::Container, reply, |m: Message| m->Container_id)
}

/// What a reply means that should hold the blobs of a container.
pub open spec fn spec_blob_list_response(reply: Result<Seq<u8>, HostFailure>) -> Result<
    Seq<BlobView>,
    ErrorView,
> {
    spec_read(Shape::BlobList, reply, |m: Message| m->BlobList_blobs)
}

/// The object that a blob of a reply stands for: none where its id is empty.
pub open spec fn spec_present(blob: BlobView) -> Option<BlobView> {
    if blob.id.len() == 0 {
        None
    } else {
        Some(blob)
    }
}

/// What a reply means that should hold the metadata of one object.
pub open spec fn spec_blob_info_response(reply: Result<Seq<u8>, HostFailure>) -> Result<
    Option<BlobView>,
    ErrorView,
> {
    spec_read(Shape::Blob, reply, |m: Message| spec_present(m->Blob_0))
}

/// A reply that holds a blob without an id means that there is no such object, and is no
/// error. A reply that holds a blob with an id means that object, field for field.
pub proof fn lemma_blob_info_tells_absence_by_the_id(bytes: Seq<u8>, blob: BlobView)
    requires
        decoding(Shape::Blob, bytes) == found(Message::Blob(blob)),
    ensures
        blob.id.len() == 0 ==> spec_blob_info_response(Ok(bytes)) == Ok::<
            Option<BlobView>,
            ErrorView,
        >(None),
        blob.id.len() > 0 ==> spec_blob_info_response(Ok(bytes)) == Ok::<
            Option<BlobView>,
            ErrorView,
        >(Some(blob)),
{
}

/// What a reply means for the transfer that was planned before the call.
pub open spec fn spec_transfer_response(
    plan: TransferView,
    reply: Result<Seq<u8>, HostFailure>,
) -> Result<TransferView, ErrorView> {
    match reply {
        Ok(_) => Ok(plan),
        Err(e) => Err(ErrorView::WapcError(e)),
    }
}

impl ObjectStoreHostBinding {
    /// The request of [`Self::create_container`].
    pub fn create_container_request(&self, name: &str) -> (r: Result<Invocation, Error>)
        ensures
            outcome(r) == spec_request(
                self@,
                OP_CREATE_CONTAINER@,
                Message::Container { id: name@ },
            ),
    {
        prepare(
            self.binding.as_str(),
            CAPID_BLOBSTORE,
            OP_CREATE_CONTAINER,
            codec::encode_container(name),
        )
    }

    /// Reads the reply to [`Self::create_container`]: the container as the store made it.
    pub fn create_container_response(reply: Result<Vec<u8>, HostFailure>) -> (r: Result<
        Container,
        Error,
    >)
        ensures
            outcome(r) == spec_container_response(answer(reply)),
    {
        match reply {
            Err(e) => Err(new(ErrorKind::WapcError(e))),
            Ok(bytes) => match codec::decode_container(bytes.as_slice()) {
                Err(words) => Err(new(ErrorKind::Serialization(words))),
                Ok(container) => Ok(container),
            },
        }
    }

    /// Creates a container in the store.
    pub fn create_container(&self, name: &str) -> (r: Result<Container, Error>)
        ensures
            round_trip(
                spec_request(self@, OP_CREATE_CONTAINER@, Message::Container { id: name@ }),
                |reply: Result<Seq<u8>, HostFailure>| spec_container_response(reply),
                outcome(r),
            ),
    {
        match self.create_container_request(name) {
            Err(e) => Err(e),
            Ok(call) => {
                let reply = host_call(&call);
                let ghost heard = answer(reply);
                let r = Self::create_container_response(reply);
                assert(outcome(r) == (|reply: Result<Seq<u8>, HostFailure>|
                    spec_container_response(reply))(heard));
                r
            },
        }
    }

    /// The request of [`Self::remove_container`].
    pub fn remove_container_request(&self, name: &str) -> (r: Result<Invocation, Error>)
        ensures
            outcome(r) == spec_request(
                self@,
                OP_REMOVE_CONTAINER@,
                Message::Container { id: name@ },
            ),
    {
        prepare(
            self.binding.as_str(),
            CAPID_BLOBSTORE,
            OP_REMOVE_CONTAINER,
            codec::encode_container(name),
        )
    }

    /// Removes a container from the store. Whether a container that still holds objects
    /// can be removed is the provider's decision.
    pub fn remove_container(&self, name: &str) -> (r: Result<(), Error>)
        ensures
            round_trip(
                spec_request(self@, OP_REMOVE_CONTAINER@, Message::Container { id: name@ }),
                |reply: Result<Seq<u8>, HostFailure>| spec_acknowledged(reply),
                outcome(r),
            ),
    {
        match self.remove_container_request(name) {
            Err(e) => Err(e),
            Ok(call) => {
                let reply = host_call(&call);
                let ghost heard = answer(reply);
                let r = acknowledged(reply);
                assert(outcome(r) == (|reply: Result<Seq<u8>, HostFailure>|
                    spec_acknowledged(reply))(heard));
                r
            },
        }
    }

    /// The request of [`Self::remove_object`]: a blob that names the object and claims no
    /// size.
    pub fn remove_object_request(&self, name: &str, container: &str) -> (r: Result<
        Invocation,
        Error,
    >)
        ensures
            outcome(r) == spec_request(
                self@,
                OP_REMOVE_OBJECT@,
                Message::Blob(BlobView { id: name@, container: container@, byte_size: 0 }),
            ),
    {
        prepare(
            self.binding.as_str(),
            CAPID_BLOBSTORE,
            OP_REMOVE_OBJECT,
            codec::encode_blob(name, container, 0),
        )
    }

    /// Removes an object from a container.
    pub fn remove_object(&self, name: &str, container: &str) -> (r: Result<(), Error>)
        ensures
            round_trip(
                spec_request(
                    self@,
                    OP_REMOVE_OBJECT@,
                    Message::Blob(BlobView { id: name@, container: container@, byte_size: 0 }),
                ),
                |reply: Result<Seq<u8>, HostFailure>| spec_acknowledged(reply),
                outcome(r),
            ),
    {
        match self.remove_object_request(name, container) {
            Err(e) => Err(e),
            Ok(call) => {
                let reply = host_call(&call);
                let ghost heard = answer(reply);
                let r = acknowledged(reply);
                assert(outcome(r) == (|reply: Result<Seq<u8>, HostFailure>|
                    spec_acknowledged(reply))(heard));
                r
            },
        }
    }

    /// The request of [`Self::list_objects`].
    pub fn list_objects_request(&self, container: &str) -> (r: Result<Invocation, Error>)
        ensures
            outcome(r) == spec_request(
                self@,
                OP_LIST_OBJECTS@,
                Message::Container { id: container@ },
            ),
    {
        prepare(
            self.binding.as_str(),
            CAPID_BLOBSTORE,
            OP_LIST_OBJECTS,
            codec::encode_container(container),
        )
    }

    /// Reads the reply to [`Self::list_objects`]: the blobs in the order of the reply.
    pub fn list_objects_response(reply: Result<Vec<u8>, HostFailure>) -> (r: Result<
        BlobList,
        Error,
    >)
        ensures
            outcome(r) == spec_blob_list_response(answer(reply)),
    {
        match reply {
            Err(e) => Err(new(ErrorKind::WapcError(e))),
            Ok(bytes) => match codec::decode_blob_list(bytes.as_slice()) {
                Err(words) => Err(new(ErrorKind::Serialization(words))),
                Ok(list) => Ok(list),
            },
        }
    }

    /// Lists the objects of a container.
    pub fn list_objects(&self, container: &str) -> (r: Result<BlobList, Error>)
        ensures
            round_trip(
                spec_request(self@, OP_LIST_OBJECTS@, Message::Container { id: container@ }),
                |reply: Result<Seq<u8>, HostFailure>| spec_blob_list_response(reply),
                outcome(r),
            ),
    {
        match self.list_objects_request(container) {
            Err(e) => Err(e),
            Ok(call) => {
                let reply = host_call(&call);
                let ghost heard = answer(reply);
                let r = Self::list_objects_response(reply);
                assert(outcome(r) == (|reply: Result<Seq<u8>, HostFailure>|
                    spec_blob_list_response(reply))(heard));
                r
            },
        }
    }

    /// The request of [`Self::get_blob_info`]: a blob that names the object and claims no
    /// size.
    pub fn get_blob_info_request(&self, container: &str, id: &str) -> (r: Result<
        Invocation,
        Error,
    >)
        ensures
            outcome(r) == spec_request(
                self@,
                OP_GET_OBJECT_INFO@,
                Message::Blob(BlobView { id: id@, container: container@, byte_size: 0 }),
            ),
    {
        prepare(
            self.binding.as_str(),
            CAPID_BLOBSTORE,
            OP_GET_OBJECT_INFO,
            codec::encode_blob(id, container, 0),
        )
    }

    /// Reads the reply to [`Self::get_blob_info`]. A blob without an id is the store's
    /// way of saying that there is no such object: that is a finding, not a failure.
    pub fn get_blob_info_response(reply: Result<Vec<u8>, HostFailure>) -> (r: Result<
        Option<Blob>,
        Error,
    >)
        ensures
            outcome(r) == spec_blob_info_response(answer(reply)),
    {
        match reply {
            Err(e) => Err(new(ErrorKind::WapcError(e))),
            Ok(bytes) => match codec::decode_blob(bytes.as_slice()) {
                Err(words) => Err(new(ErrorKind::Serialization(words))),
                Ok(blob) => {
                    if blob.id.as_str().is_empty() {
                        Ok(None)
                    } else {
                        Ok(Some(blob))
                    }
                },
            },
        }
    }

    /// Fetches the metadata of one object, without its bytes, or finds that there is no
    /// such object.
    pub fn get_blob_info(&self, container: &str, id: &str) -> (r: Result<Option<Blob>, Error>)
        ensures
            round_trip(
                spec_request(
                    self@,
                    OP_GET_OBJECT_INFO@,
                    Message::Blob(BlobView { id: id@, container: container@, byte_size: 0 }),
                ),
                |reply: Result<Seq<u8>, HostFailure>| spec_blob_info_response(reply),
                outcome(r),
            ),
            r matches Ok(Some(blob)) ==> blob.id@.len() > 0,
    {
        match self.get_blob_info_request(container, id) {
            Err(e) => Err(e),
            Ok(call) => {
                let reply = host_call(&call);
                let ghost heard = answer(reply);
                let r = Self::get_blob_info_response(reply);
                assert(outcome(r) == (|reply: Result<Seq<u8>, HostFailure>|
                    spec_blob_info_response(reply))(heard));
                r
            },
        }
    }

    /// The request of [`Self::start_upload`]: a first chunk without bytes that announces
    /// the object and the sizes.
    pub fn start_upload_request(&self, blob: &Blob, chunk_size: u64, total_bytes: u64) -> (r:
        Result<Invocation, Error>)
        ensures
            outcome(r) == spec_request(
                self@,
                OP_START_UPLOAD@,
                Message::FileChunk {
                    sequence_no: 0,
                    container: blob.container@,
                    id: blob.id@,
                    total_bytes,
                    chunk_size,
                    chunk_bytes: Seq::empty(),
                },
            ),
    {
        let nothing: Vec<u8> = Vec::new();
        prepare(
            self.binding.as_str(),
            CAPID_BLOBSTORE,
            OP_START_UPLOAD,
            codec::encode_file_chunk(
                0,
                blob.container.as_str(),
                blob.id.as_str(),
                total_bytes,
                chunk_size,
                nothing.as_slice(),
            ),
        )
    }

    /// Reads the reply to [`Self::start_upload`] and to [`Self::start_download`]: once
    /// the host has acknowledged the start, the plan made before the call stands.
    pub fn transfer_response(plan: Transfer, reply: Result<Vec<u8>, HostFailure>) -> (r: Result<
        Transfer,
        Error,
    >)
        ensures
            outcome(r) == spec_transfer_response(plan@, answer(reply)),
    {
        match reply {
            Ok(_) => Ok(plan),
            Err(e) => Err(new(ErrorKind::WapcError(e))),
        }
    }

    /// Announces an upload of `total_bytes` bytes for `blob`, in chunks of `chunk_size`
    /// bytes. The chunks follow, one `upload_chunk` each. The returned plan counts the
    /// chunks that fit whole: the caller sends what is left over as a last, shorter chunk.
    pub fn start_upload(&self, blob: &Blob, chunk_size: u64, total_bytes: u64) -> (r: Result<
        Transfer,
        Error,
    >)
        requires
            chunk_size > 0,
        ensures
            round_trip(
                spec_request(
                    self@,
                    OP_START_UPLOAD@,
                    Message::FileChunk {
                        sequence_no: 0,
                        container: blob.container@,
                        id: blob.id@,
                        total_bytes,
                        chunk_size,
                        chunk_bytes: Seq::empty(),
                    },
                ),
                |reply: Result<Seq<u8>, HostFailure>| spec_transfer_response(
                    spec_transfer(blob.id@, blob.container@, chunk_size, total_bytes),
                    reply,
                ),
                outcome(r),
            ),
            r matches Ok(plan) ==> plan@ == spec_transfer(
                blob.id@,
                blob.container@,
                chunk_size,
                total_bytes,
            ),
    {
        let plan = Transfer::plan(blob, chunk_size, total_bytes);
        match self.start_upload_request(blob, chunk_size, total_bytes) {
            Err(e) => Err(e),
            Ok(call) => {
                let reply = host_call(&call);
                let ghost heard = answer(reply);
                let r = Self::transfer_response(plan, reply);
                assert(outcome(r) == (|reply: Result<Seq<u8>, HostFailure>|
                    spec_transfer_response(
                    spec_transfer(blob.id@, blob.container@, chunk_size, total_bytes),
                    reply,
                ))(heard));
                r
            },
        }
    }

    /// The request of [`Self::upload_chunk`]: the chunk with the caller's own sequence
    /// number.
    pub fn upload_chunk_request(&self, transfer: &Transfer, offset: u64, bytes: &[u8]) -> (r:
        Result<Invocation, Error>)
        ensures
            outcome(r) == spec_request(
                self@,
                OP_UPLOAD_CHUNK@,
                Message::FileChunk {
                    sequence_no: offset,
                    container: transfer.container@,
                    id: transfer.blob_id@,
                    total_bytes: transfer.total_size,
                    chunk_size: transfer.chunk_size,
                    chunk_bytes: bytes@,
                },
            ),
    {
        prepare(
            self.binding.as_str(),
            CAPID_BLOBSTORE,
            OP_UPLOAD_CHUNK,
            codec::encode_file_chunk(
                offset,
                transfer.container.as_str(),
                transfer.blob_id.as_str(),
                transfer.total_size,
                transfer.chunk_size,
                bytes,
            ),
        )
    }

    /// Uploads one chunk of an object, after `start_upload` has announced it. The sequence
    /// number is the caller's. Each chunk is a call of its own and fails on its own.
    pub fn upload_chunk(&self, transfer: &Transfer, offset: u64, bytes: &[u8]) -> (r: Result<
        (),
        Error,
    >)
        ensures
            round_trip(
                spec_request(
                    self@,
                    OP_UPLOAD_CHUNK@,
                    Message::FileChunk {
                        sequence_no: offset,
                        container: transfer.container@,
                        id: transfer.blob_id@,
                        total_bytes: transfer.total_size,
                        chunk_size: transfer.chunk_size,
                        chunk_bytes: bytes@,
                    },
                ),
                |reply: Result<Seq<u8>, HostFailure>| spec_acknowledged(reply),
                outcome(r),
            ),
    {
        match self.upload_chunk_request(transfer, offset, bytes) {
            Err(e) => Err(e),
            Ok(call) => {
                let reply = host_call(&call);
                let ghost heard = answer(reply);
                let r = acknowledged(reply);
                assert(outcome(r) == (|reply: Result<Seq<u8>, HostFailure>|
                    spec_acknowledged(reply))(heard));
                r
            },
        }
    }

    /// The request of [`Self::start_download`].
    pub fn start_download_request(&self, blob: &Blob, chunk_size: u64) -> (r: Result<
        Invocation,
        Error,
    >)
        ensures
            outcome(r) == spec_request(
                self@,
                OP_START_DOWNLOAD@,
                Message::StreamRequest { id: blob.id@, container: blob.container@, chunk_size },
            ),
    {
        prepare(
            self.binding.as_str(),
            CAPID_BLOBSTORE,
            OP_START_DOWNLOAD,
            codec::encode_stream_request(blob.id.as_str(), blob.container.as_str(), chunk_size),
        )
    }

    /// Asks the provider to send `blob` in chunks of `chunk_size` bytes. The chunks do not
    /// come back from this call: each arrives as an inbound `ReceiveChunk`. The returned
    /// plan is made of the size that `blob` states.
    pub fn start_download(&self, blob: &Blob, chunk_size: u64) -> (r: Result<Transfer, Error>)
        requires
            chunk_size > 0,
        ensures
            round_trip(
                spec_request(
                    self@,
                    OP_START_DOWNLOAD@,
                    Message::StreamRequest {
                        id: blob.id@,
                        container: blob.container@,
                        chunk_size,
                    },
                ),
                |reply: Result<Seq<u8>, HostFailure>| spec_transfer_response(
                    spec_transfer(blob.id@, blob.container@, chunk_size, blob.byte_size),
                    reply,
                ),
                outcome(r),
            ),
            r matches Ok(plan) ==> plan@ == spec_transfer(
                blob.id@,
                blob.container@,
                chunk_size,
                blob.byte_size,
            ),
    {
        let plan = Transfer::plan(blob, chunk_size, blob.byte_size);
        match self.start_download_request(blob, chunk_size) {
            Err(e) => Err(e),
            Ok(call) => {
                let reply = host_call(&call);
                let ghost heard = answer(reply);
                let r = Self::transfer_response(plan, reply);
                assert(outcome(r) == (|reply: Result<Seq<u8>, HostFailure>|
                    spec_transfer_response(
                    spec_transfer(blob.id@, blob.container@, chunk_size, blob.byte_size),
                    reply,
                ))(heard));
                r
            },
        }
    }
}

impl Default for ObjectStoreHostBinding {
    fn default() -> (r: Self)
        ensures
            r@ == DEFAULT_BINDING@,
    {
        ObjectStoreHostBinding { binding: DEFAULT_BINDING.to_string() }
    }
}

impl ObjectStore for ObjectStoreHostBinding {
    /// Creates a container in the store.
    fn create_container(&self, name: &str) -> (r: Result<Container, Error>)
        ensures
            round_trip(
                spec_request(self@, OP_CREATE_CONTAINER@, Message::Container { id: name@ }),
                |reply: Result<Seq<u8>, HostFailure>| spec_container_response(reply),
                outcome(r),
            ),
    {
        self.create_container(name)
    }

    /// Removes a container from the store.
    fn remove_container(&self, name: &str) -> (r: Result<(), Error>)
        ensures
            round_trip(
                spec_request(self@, OP_REMOVE_CONTAINER@, Message::Container { id: name@ }),
                |reply: Result<Seq<u8>, HostFailure>| spec_acknowledged(reply),
                outcome(r),
            ),
    {
        self.remove_container(name)
    }

    /// Removes an object from a container.
    fn remove_object(&self, id: &str, container: &str) -> (r: Result<(), Error>)
        ensures
            round_trip(
                spec_request(
                    self@,
                    OP_REMOVE_OBJECT@,
                    Message::Blob(BlobView { id: id@, container: container@, byte_size: 0 }),
                ),
                |reply: Result<Seq<u8>, HostFailure>| spec_acknowledged(reply),
                outcome(r),
            ),
    {
        self.remove_object(id, container)
    }

    /// Lists the objects of a container.
    fn list_objects(&self, container: &str) -> (r: Result<BlobList, Error>)
        ensures
            round_trip(
                spec_request(self@, OP_LIST_OBJECTS@, Message::Container { id: container@ }),
                |reply: Result<Seq<u8>, HostFailure>| spec_blob_list_response(reply),
                outcome(r),
            ),
    {
        self.list_objects(container)
    }

    /// Fetches the metadata of one object, or finds that there is no such object.
    fn get_blob_info(&self, container: &str, id: &str) -> (r: Result<Option<Blob>, Error>)
        ensures
            round_trip(
                spec_request(
                    self@,
                    OP_GET_OBJECT_INFO@,
                    Message::Blob(BlobView { id: id@, container: container@, byte_size: 0 }),
                ),
                |reply: Result<Seq<u8>, HostFailure>| spec_blob_info_response(reply),
                outcome(r),
            ),
            r matches Ok(Some(blob)) ==> blob.id@.len() > 0,
    {
        self.get_blob_info(container, id)
    }

    /// Announces an upload and returns its plan.
    fn start_upload(&self, blob: &Blob, chunk_size: u64, total_bytes: u64) -> (r: Result<
        Transfer,
        Error,
    >)
        ensures
            round_trip(
                spec_request(
                    self@,
                    OP_START_UPLOAD@,
                    Message::FileChunk {
                        sequence_no: 0,
                        container: blob.container@,
                        id: blob.id@,
                        total_bytes,
                        chunk_size,
                        chunk_bytes: Seq::empty(),
                    },
                ),
                |reply: Result<Seq<u8>, HostFailure>| spec_transfer_response(
                    spec_transfer(blob.id@, blob.container@, chunk_size, total_bytes),
                    reply,
                ),
                outcome(r),
            ),
            r matches Ok(plan) ==> plan@ == spec_transfer(
                blob.id@,
                blob.container@,
                chunk_size,
                total_bytes,
            ),
    {
        self.start_upload(blob, chunk_size, total_bytes)
    }

    /// Uploads one chunk of an object.
    fn upload_chunk(&self, transfer: &Transfer, offset: u64, bytes: &[u8]) -> (r: Result<(), Error>)
        ensures
            round_trip(
                spec_request(
                    self@,
                    OP_UPLOAD_CHUNK@,
                    Message::FileChunk {
                        sequence_no: offset,
                        container: transfer.container@,
                        id: transfer.blob_id@,
                        total_bytes: transfer.total_size,
                        chunk_size: transfer.chunk_size,
                        chunk_bytes: bytes@,
                    },
                ),
                |reply: Result<Seq<u8>, HostFailure>| spec_acknowledged(reply),
                outcome(r),
            ),
    {
        self.upload_chunk(transfer, offset, bytes)
    }

    /// Asks for a download and returns its plan.
    fn start_download(&self, blob: &Blob, chunk_size: u64) -> (r: Result<Transfer, Error>)
        ensures
            round_trip(
                spec_request(
                    self@,
                    OP_START_DOWNLOAD@,
                    Message::StreamRequest {
                        id: blob.id@,
                        container: blob.container@,
                        chunk_size,
                    },
                ),
                |reply: Result<Seq<u8>, HostFailure>| spec_transfer_response(
                    spec_transfer(blob.id@, blob.container@, chunk_size, blob.byte_size),
                    reply,
                ),
                outcome(r),
            ),
            r matches Ok(plan) ==> plan@ == spec_transfer(
                blob.id@,
                blob.container@,
                chunk_size,
                blob.byte_size,
            ),
    {
        self.start_download(blob, chunk_size)
    }
}

} // verus!
