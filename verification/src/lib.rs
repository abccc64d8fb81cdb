//! The guest's side of the boundary between an actor and the host that runs it.
//!
//! An actor cannot call the host directly. Everything goes through one blocking foreign
//! call that takes a binding, a capability id, an operation and a payload. The clients
//! in this crate put a typed surface on that call, one per capability family, and the
//! [`dispatch`] table routes what the host sends to the actor's handlers.

mod codec;
pub mod dispatch;
pub mod errors;
pub mod events;
pub mod extras;
pub mod kv;
pub mod logger;
pub mod msg;
pub mod objectstore;
pub mod raw;
pub mod transport;
pub mod wire;

use crate::errors::Error;
use crate::events::{Event, EventStreamsHostBinding};
use crate::extras::ExtrasHostBinding;
use crate::kv::KeyValueStoreHostBinding;
use crate::msg::MessageBrokerHostBinding;
use crate::objectstore::{Blob, BlobList, Container, ObjectStoreHostBinding, Transfer};
use crate::raw::RawCapabilityHostBinding;
use crate::wire::DEFAULT_BINDING;
use std::collections::HashMap;
use vstd::prelude::*;

verus! {

/// A client of a key-value store that the host provides.
pub trait KeyValueStore {
    /// Fetches the value of a key, or finds that the store does not hold the key.
    fn get(&self, key: &str) -> Result<Option<String>, Error>;

    /// Sets the value of a key, for good or until `expires` seconds have passed.
    fn set(&self, key: &str, value: &str, expires: Option<u32>) -> Result<(), Error>;

    /// Adds `value` to the number under a key in one step and returns the new number.
    fn atomic_add(&self, key: &str, value: i32) -> Result<i32, Error>;

    /// Appends an item to the list under a key and returns the list's new length.
    fn list_add(&self, key: &str, item: &str) -> Result<usize, Error>;

    /// Removes every occurrence of an item from the list under a key.
    fn list_del_item(&self, key: &str, item: &str) -> Result<usize, Error>;

    /// Deletes a key.
    fn del_key(&self, key: &str) -> Result<(), Error>;

    /// Fetches the items of the list under a key between two positions, both included.
    fn list_range(&self, key: &str, start: isize, stop_inclusive: isize) -> Result<
        Vec<String>,
        Error,
    >;

    /// Empties the list under a key.
    fn list_clear(&self, key: &str) -> Result<(), Error>;

    /// Adds a value to the set under a key and returns the set's new size.
    fn set_add(&self, key: &str, value: &str) -> Result<usize, Error>;

    /// Removes a value from the set under a key and returns the set's new size.
    fn set_remove(&self, key: &str, value: &str) -> Result<usize, Error>;

    /// Fetches the members of the union of the sets under the given keys.
    fn set_union(&self, keys: Vec<String>) -> Result<Vec<String>, Error>;

    /// Fetches the members that the sets under the given keys have in common.
    fn set_intersect(&self, keys: Vec<String>) -> Result<Vec<String>, Error>;

    /// Fetches the members of the set under a key.
    fn set_members(&self, key: &str) -> Result<Vec<String>, Error>;

    /// Tells whether the store holds a key.
    fn key_exists(&self, key: &str) -> Result<bool, Error>;
}

/// What a guest cannot make by itself.
pub trait Extras {
    /// Asks for a random number from `min` to `max`.
    fn get_random(&self, min: u32, max: u32) -> Result<u32, Error>;

    /// Asks for a unique identifier in text form.
    fn get_guid(&self) -> Result<String, Error>;

    /// Asks for the next sequence number. The numbers are unique within one host, not
    /// beyond it.
    fn get_sequence_number(&self) -> Result<u64, Error>;
}

/// A client of append-only event streams.
pub trait EventStreams {
    /// Appends an event to a stream and returns the new event's id.
    fn write_event(&self, stream: &str, values: HashMap<String, String>) -> Result<
        String,
        Error,
    >;

    /// Reads all the events of a stream.
    fn read_all(&self, stream: &str) -> Result<Vec<Event>, Error>;
}

/// A client of a message broker that the host provides.
pub trait MessageBroker {
    /// Publishes a message on a subject, with the subject for replies if there is one.
    fn publish(&self, subject: &str, reply_to: Option<&str>, payload: &[u8]) -> Result<
        (),
        Error,
    >;

    /// Publishes a message on a subject and waits for one reply.
    fn request(&self, subject: &str, payload: &[u8], timeout_ms: u64) -> Result<Vec<u8>, Error>;
}

/// A client of a blob store that the host provides.
pub trait ObjectStore {
    /// Creates a container.
    fn create_container(&self, name: &str) -> Result<Container, Error>;

    /// Removes a container.
    fn remove_container(&self, name: &str) -> Result<(), Error>;

    /// Removes an object from a container.
    fn remove_object(&self, id: &str, container: &str) -> Result<(), Error>;

    /// Lists the objects of a container.
    fn list_objects(&self, container: &str) -> Result<BlobList, Error>;

    /// Fetches the metadata of one object, or finds that there is no such object.
    fn get_blob_info(&self, container: &str, id: &str) -> Result<Option<Blob>, Error>;

    /// Announces an upload. The chunk size must not be zero.
    fn start_upload(&self, blob: &Blob, chunk_size: u64, total_bytes: u64) -> Result<
        Transfer,
        Error,
    >
        requires
            chunk_size > 0,
    ;

    /// Uploads one chunk of an object.
    fn upload_chunk(&self, transfer: &Transfer, offset: u64, bytes: &[u8]) -> Result<(), Error>;

    /// Asks for a download, whose chunks arrive as inbound calls. The chunk size must not
    /// be zero.
    fn start_download(&self, blob: &Blob, chunk_size: u64) -> Result<Transfer, Error>
        requires
            chunk_size > 0,
    ;
}

/// A client of a capability that has no typed client.
pub trait RawCapability {
    /// Sends a payload to an operation of a capability and returns the reply's payload.
    fn call(&self, capid: &str, operation: &str, msg: &[u8]) -> Result<Vec<u8>, Error>;
}

/// The gateway of a handler to the host: one client of each capability family. Which
/// clients these are is decided when the context is made: the ones that talk to the
/// host, or any others that do what the clients' traits ask for.
pub struct CapabilitiesContext<K, M, R, B, X, E> where
    K: KeyValueStore,
    M: MessageBroker,
    R: RawCapability,
    B: ObjectStore,
    X: Extras,
    E: EventStreams,
 {
    kv: K,
    msg: M,
    raw: R,
    blob: B,
    extras: X,
    events: E,
}

/// The context of the default wiring, whose clients all talk to the host.
pub type HostContext = CapabilitiesContext<
    KeyValueStoreHostBinding,
    MessageBrokerHostBinding,
    RawCapabilityHostBinding,
    ObjectStoreHostBinding,
    ExtrasHostBinding,
    EventStreamsHostBinding,
>;

impl Default for HostContext {
    fn default() -> (ctx: HostContext)
        ensures
            ctx.is_default_wiring(),
    {
        CapabilitiesContext::new()
    }
}

impl HostContext {
    /// Every client addresses the provider instance named `default`.
    pub open spec fn is_default_wiring(&self) -> bool {
        &&& self.spec_kv()@ == DEFAULT_BINDING@
        &&& self.spec_msg()@ == DEFAULT_BINDING@
        &&& self.spec_raw()@ == DEFAULT_BINDING@
        &&& self.spec_objectstore()@ == DEFAULT_BINDING@
        &&& self.spec_extras()@ == DEFAULT_BINDING@
        &&& self.spec_events()@ == DEFAULT_BINDING@
    }

    /// Makes the context of the default wiring: every client talks to the host, each to
    /// the provider instance named `default`.
    pub fn new() -> (ctx: HostContext)
        ensures
            ctx.is_default_wiring(),
    {
        CapabilitiesContext::custom(
            crate::kv::default(),
            crate::msg::default(),
            crate::raw::default(),
            crate::objectstore::default(),
            crate::extras::default(),
            crate::events::default(),
        )
    }

}

impl<K, M, R, B, X, E> CapabilitiesContext<K, M, R, B, X, E> where
    K: KeyValueStore,
    M: MessageBroker,
    R: RawCapability,
    B: ObjectStore,
    X: Extras,
    E: EventStreams,
 {
    /// The key-value client of the context.
    pub closed spec fn spec_kv(&self) -> K {
        self.kv
    }

    /// The messaging client of the context.
    pub closed spec fn spec_msg(&self) -> M {
        self.msg
    }

    /// The untyped client of the context.
    pub closed spec fn spec_raw(&self) -> R {
        self.raw
    }

    /// The blob store client of the context.
    pub closed spec fn spec_objectstore(&self) -> B {
        self.blob
    }

    /// The extras client of the context.
    pub closed spec fn spec_extras(&self) -> X {
        self.extras
    }

    /// The event streams client of the context.
    pub closed spec fn spec_events(&self) -> E {
        self.events
    }

    /// Makes a context of the given clients, whatever stands behind them.
    pub fn custom(kv: K, msg: M, raw: R, blob: B, extras: X, events: E) -> (ctx: Self)
        ensures
            ctx.spec_kv() == kv,
            ctx.spec_msg() == msg,
            ctx.spec_raw() == raw,
            ctx.spec_objectstore() == blob,
            ctx.spec_extras() == extras,
            ctx.spec_events() == events,
    {
        CapabilitiesContext { kv, msg, raw, blob, extras, events }
    }

    /// Writes a line to the host's console.
    pub fn log(&self, msg: &str) {
        console_log(msg);
    }

    /// The key-value client.
    pub fn kv(&self) -> (client: &K)
        ensures
            *client == self.spec_kv(),
    {
        &self.kv
    }

    /// The messaging client.
    pub fn msg(&self) -> (client: &M)
        ensures
            *client == self.spec_msg(),
    {
        &self.msg
    }

    /// The untyped client.
    pub fn raw(&self) -> (client: &R)
        ensures
            *client == self.spec_raw(),
    {
        &self.raw
    }

    /// The blob store client.
    pub fn objectstore(&self) -> (client: &B)
        ensures
            *client == self.spec_objectstore(),
    {
        &self.blob
    }

    /// The extras client.
    pub fn extras(&self) -> (client: &X)
        ensures
            *client == self.spec_extras(),
    {
        &self.extras
    }

    /// The event streams client.
    pub fn events(&self) -> (client: &E)
        ensures
            *client == self.spec_events(),
    {
        &self.events
    }
}

/// `wapc_guest::console_log` with the given line. The host shows the line or not;
/// nothing comes back.
#[verifier::external_body]
fn console_log(line: &str) {
    wapc_guest::console_log(line)
}

} // verus!
