//! The client of the key-value store capability.
//!
//! The wire carries counts, list positions and expiry times as 32-bit signed numbers. A
//! request with a number outside that range is not sent, and a reply with a negative
//! count is not believed: both are key-value errors.

use crate::codec;
use crate::errors::{new, Error, ErrorKind, ErrorView};
use crate::transport::{
    acknowledged, answer, host_call, outcome, prepare, round_trip, spec_acknowledged,
    spec_interpret,
    spec_prepare, spec_read, Invocation, InvocationView,
};
use crate::wire::{
    decoding, encoding, found, Message, Shape, CAPID_KEYVALUE, DEFAULT_BINDING,
};
use crate::KeyValueStore;
use vstd::prelude::*;
use wapc_guest::errors::Error as HostFailure;

verus! {

pub const OP_ADD: &'static str = "Add";

pub const OP_GET: &'static str = "Get";

pub const OP_SET: &'static str = "Set";

pub const OP_DEL: &'static str = "Del";

pub const OP_CLEAR: &'static str = "Clear";

pub const OP_RANGE: &'static str = "Range";

pub const OP_PUSH: &'static str = "Push";

pub const OP_LIST_DEL: &'static str = "ListItemDelete";

pub const OP_SET_ADD: &'static str = "SetAdd";

pub const OP_SET_REMOVE: &'static str = "SetRemove";

pub const OP_SET_UNION: &'static str = "SetUnion";

pub const OP_SET_INTERSECT: &'static str = "SetIntersection";

pub const OP_SET_QUERY: &'static str = "SetQuery";

pub const OP_KEY_EXISTS: &'static str = "KeyExists";

/// The words of the error for an expiry time that the wire cannot carry.
pub const EXPIRY_OUT_OF_RANGE: &'static str = "expiry does not fit in 32 bits";

/// The words of the error for a list position that the wire cannot carry.
pub const POSITION_OUT_OF_RANGE: &'static str = "list position does not fit in 32 bits";

/// The words of the error for a reply that counts less than nothing.
pub const NEGATIVE_COUNT: &'static str = "the store reported a negative count";

/// A client of one key-value provider instance of the host.
pub struct KeyValueStoreHostBinding {
    binding: String,
}

impl View for KeyValueStoreHostBinding {
    type V = Seq<char>;

    /// The name of the provider instance that the client addresses.
    closed spec fn view(&self) -> Seq<char> {
        self.binding@
    }
}

/// Creates a key-value client that addresses the provider instance `binding`.
pub fn host(binding: &str) -> (r: KeyValueStoreHostBinding)
    ensures
        r@ == binding@,
{
    KeyValueStoreHostBinding { binding: binding.to_string() }
}

/// Creates a key-value client that addresses the provider instance named `default`.
pub fn default() -> (r: KeyValueStoreHostBinding)
    ensures
        r@ == DEFAULT_BINDING@,
{
    KeyValueStoreHostBinding { binding: DEFAULT_BINDING.to_string() }
}

/// The request that carries `message` to the operation `operation` of the key-value
/// store behind `binding`.
pub open spec fn spec_request(binding: Seq<char>, operation: Seq<char>, message: Message) -> Result<
    InvocationView,
    ErrorView,
> {
    spec_prepare(binding, CAPID_KEYVALUE@, operation, encoding(message))
}

/// The expiry time as the wire carries it: seconds, and 0 for a value that never expires.
pub open spec fn spec_expiry(expires: Option<u32>) -> Result<i32, ErrorView> {
    match expires {
        None => Ok(0i32),
        Some(seconds) => if seconds <= i32::MAX {
            Ok(seconds as i32)
        } else {
            Err(ErrorView::KeyValueError(EXPIRY_OUT_OF_RANGE@))
        },
    }
}

/// A list position as the wire carries it.
pub open spec fn spec_position(position: isize) -> Result<i32, ErrorView> {
    if i32::MIN <= position <= i32::MAX {
        Ok(position as i32)
    } else {
        Err(ErrorView::KeyValueError(POSITION_OUT_OF_RANGE@))
    }
}

/// A count as the client returns it.
pub open spec fn spec_count(new_count: i32) -> Result<usize, ErrorView> {
    if new_count >= 0 {
        Ok(new_count as usize)
    } else {
        Err(ErrorView::KeyValueError(NEGATIVE_COUNT@))
    }
}

/// The request of `set`.
pub open spec fn spec_set_request(
    binding: Seq<char>,
    key: Seq<char>,
    value: Seq<char>,
    expires: Option<u32>,
) -> Result<InvocationView, ErrorView> {
    match spec_expiry(expires) {
        Err(e) => Err(e),
        Ok(expires_s) => spec_request(
            binding,
            OP_SET@,
            Message::SetRequest { key, value, expires_s },
        ),
    }
}

/// The request of `list_range`.
pub open spec fn spec_list_range_request(
    binding: Seq<char>,
    key: Seq<char>,
    start: isize,
    stop_inclusive: isize,
) -> Result<InvocationView, ErrorView> {
    match spec_position(start) {
        Err(e) => Err(e),
        Ok(start) => match spec_position(stop_inclusive) {
            Err(e) => Err(e),
            Ok(stop) => spec_request(
                binding,
                OP_RANGE@,
                Message::ListRangeRequest { key, start, stop },
            ),
        },
    }
}

/// What a reply to `get` means: the value, if the store holds the key.
pub open spec fn spec_get_response(reply: Result<Seq<u8>, HostFailure>) -> Result<
    Option<Seq<char>>,
    ErrorView,
> {
    spec_read(
        Shape::GetResponse,
        reply,
        |m: Message|
            if m->GetResponse_exists {
                Some(m->GetResponse_value)
            } else {
                None
            },
    )
}

/// A reply which says that the store does not hold the key is a finding of nothing, not
/// an error, whatever value the reply carries beside it.
pub proof fn lemma_absent_key_is_not_an_error(bytes: Seq<u8>, value: Seq<char>)
    requires
        decoding(Shape::GetResponse, bytes) == found(Message::GetResponse { value, exists: false }),
    ensures
        spec_get_response(Ok(bytes)) == Ok::<Option<Seq<char>>, ErrorView>(None),
{
}

/// What a reply to `key_exists` means.
pub open spec fn spec_key_exists_response(reply: Result<Seq<u8>, HostFailure>) -> Result<
    bool,
    ErrorView,
> {
    spec_read(Shape::GetResponse, reply, |m: Message| m->GetResponse_exists)
}

/// What a reply to `atomic_add` means: the value after the addition.
pub open spec fn spec_add_response(reply: Result<Seq<u8>, HostFailure>) -> Result<i32, ErrorView> {
    spec_read(Shape::AddResponse, reply, |m: Message| m->AddResponse_value)
}

/// What a reply to a list operation means that returns the list's new length.
pub open spec fn spec_list_count_response(reply: Result<Seq<u8>, HostFailure>) -> Result<
    usize,
    ErrorView,
> {
    spec_interpret(Shape::ListResponse, reply, |m: Message| spec_count(m->ListResponse_new_count))
}

/// What a reply to a set operation means that returns the set's new size.
pub open spec fn spec_set_count_response(reply: Result<Seq<u8>, HostFailure>) -> Result<
    usize,
    ErrorView,
> {
    spec_interpret(
        Shape::SetOperationResponse,
        reply,
        |m: Message| spec_count(m->SetOperationResponse_new_count),
    )
}

/// What a reply to `list_range` means: the items in the order of the reply.
pub open spec fn spec_list_values_response(reply: Result<Seq<u8>, HostFailure>) -> Result<
    Seq<Seq<char>>,
    ErrorView,
> {
    spec_read(Shape::ListRangeResponse, reply, |m: Message| m->ListRangeResponse_values)
}

/// What a reply to a set operation means that returns members: the members as the reply
/// lists them.
pub open spec fn spec_set_values_response(reply: Result<Seq<u8>, HostFailure>) -> Result<
    Seq<Seq<char>>,
    ErrorView,
> {
    spec_read(Shape::SetQueryResponse, reply, |m: Message| m->SetQueryResponse_values)
}

/// Turns the count of a reply into a length.
fn count(new_count: i32) -> (r: Result<usize, Error>)
    ensures
        outcome(r) == spec_count(new_count),
{
    if new_count >= 0 {
        Ok(new_count as usize)
    } else {
        Err(new(ErrorKind::KeyValueError(NEGATIVE_COUNT.to_string())))
    }
}

/// Turns a list position into the number that the wire carries.
fn position(at: isize) -> (r: Result<i32, Error>)
    ensures
        outcome(r) == spec_position(at),
{
    if at >= -2147483648 && at <= 2147483647 {
        Ok(at as i32)
    } else {
        Err(new(ErrorKind::KeyValueError(POSITION_OUT_OF_RANGE.to_string())))
    }
}

impl KeyValueStoreHostBinding {
    /// The request of `get`.
    pub fn get_request(&self, key: &str) -> (r: Result<Invocation, Error>)
        ensures
            outcome(r) == spec_request(self@, OP_GET@, Message::GetRequest { key: key@ }),
    {
        prepare(self.binding.as_str(), CAPID_KEYVALUE, OP_GET, codec::encode_get(key))
    }

    /// Reads the reply to `get`. A key that the store does not hold is a finding, not a
    /// failure.
    pub fn get_response(reply: Result<Vec<u8>, HostFailure>) -> (r: Result<Option<String>, Error>)
        ensures
            outcome(r) == spec_get_response(answer(reply)),
    {
        match reply {
            Err(e) => Err(new(ErrorKind::WapcError(e))),
            Ok(bytes) => match codec::decode_get_response(bytes.as_slice()) {
                Err(words) => Err(new(ErrorKind::Serialization(words))),
                Ok(found) => {
                    if found.1 {
                        Ok(Some(found.0))
                    } else {
                        Ok(None)
                    }
                },
            },
        }
    }

    /// The request of `set`. An expiry time beyond the wire's range is refused here.
    pub fn set_request(&self, key: &str, value: &str, expires: Option<u32>) -> (r: Result<
        Invocation,
        Error,
    >)
        ensures
            outcome(r) == spec_set_request(self@, key@, value@, expires),
    {
        let expires_s: i32 = match expires {
            None => 0,
            Some(seconds) => {
                if seconds <= 2147483647 {
                    seconds as i32
                } else {
                    return Err(new(ErrorKind::KeyValueError(EXPIRY_OUT_OF_RANGE.to_string())));
                }
            },
        };
        prepare(
            self.binding.as_str(),
            CAPID_KEYVALUE,
            OP_SET,
            codec::encode_set(key, value, expires_s),
        )
    }

    /// The request of `atomic_add`.
    pub fn atomic_add_request(&self, key: &str, value: i32) -> (r: Result<Invocation, Error>)
        ensures
            outcome(r) == spec_request(self@, OP_ADD@, Message::AddRequest { key: key@, value }),
    {
        prepare(self.binding.as_str(), CAPID_KEYVALUE, OP_ADD, codec::encode_add(key, value))
    }

    /// Reads the reply to `atomic_add`.
    pub fn atomic_add_response(reply: Result<Vec<u8>, HostFailure>) -> (r: Result<i32, Error>)
        ensures
            outcome(r) == spec_add_response(answer(reply)),
    {
        match reply {
            Err(e) => Err(new(ErrorKind::WapcError(e))),
            Ok(bytes) => match codec::decode_add_response(bytes.as_slice()) {
                Err(words) => Err(new(ErrorKind::Serialization(words))),
                Ok(value) => Ok(value),
            },
        }
    }

    /// The request of `list_add`.
    pub fn list_add_request(&self, key: &str, item: &str) -> (r: Result<Invocation, Error>)
        ensures
            outcome(r) == spec_request(
                self@,
                OP_PUSH@,
                Message::ListPushRequest { key: key@, value: item@ },
            ),
    {
        prepare(self.binding.as_str(), CAPID_KEYVALUE, OP_PUSH, codec::encode_list_push(key, item))
    }

    /// The request of `list_del_item`.
    pub fn list_del_item_request(&self, key: &str, item: &str) -> (r: Result<Invocation, Error>)
        ensures
            outcome(r) == spec_request(
                self@,
                OP_LIST_DEL@,
                Message::ListDelItemRequest { key: key@, value: item@ },
            ),
    {
        prepare(
            self.binding.as_str(),
            CAPID_KEYVALUE,
            OP_LIST_DEL,
            codec::encode_list_del_item(key, item),
        )
    }

    /// Reads the reply to `list_add` and to `list_del_item`.
    pub fn list_count_response(reply: Result<Vec<u8>, HostFailure>) -> (r: Result<usize, Error>)
        ensures
            outcome(r) == spec_list_count_response(answer(reply)),
    {
        match reply {
            Err(e) => Err(new(ErrorKind::WapcError(e))),
            Ok(bytes) => match codec::decode_list_response(bytes.as_slice()) {
                Err(words) => Err(new(ErrorKind::Serialization(words))),
                Ok(new_count) => count(new_count),
            },
        }
    }

    /// The request of `del_key`.
    pub fn del_key_request(&self, key: &str) -> (r: Result<Invocation, Error>)
        ensures
            outcome(r) == spec_request(self@, OP_DEL@, Message::DelRequest { key: key@ }),
    {
        prepare(self.binding.as_str(), CAPID_KEYVALUE, OP_DEL, codec::encode_del(key))
    }

    /// The request of `list_range`. A position beyond the wire's range is refused here.
    pub fn list_range_request(&self, key: &str, start: isize, stop_inclusive: isize) -> (r:
        Result<Invocation, Error>)
        ensures
            outcome(r) == spec_list_range_request(self@, key@, start, stop_inclusive),
    {
        match position(start) {
            Err(e) => Err(e),
            Ok(start) => match position(stop_inclusive) {
                Err(e) => Err(e),
                Ok(stop) => prepare(
                    self.binding.as_str(),
                    CAPID_KEYVALUE,
                    OP_RANGE,
                    codec::encode_list_range(key, start, stop),
                ),
            },
        }
    }

    /// Reads the reply to `list_range`.
    pub fn list_range_response(reply: Result<Vec<u8>, HostFailure>) -> (r: Result<
        Vec<String>,
        Error,
    >)
        ensures
            outcome(r) == spec_list_values_response(answer(reply)),
    {
        match reply {
            Err(e) => Err(new(ErrorKind::WapcError(e))),
            Ok(bytes) => match codec::decode_list_range_response(bytes.as_slice()) {
                Err(words) => Err(new(ErrorKind::Serialization(words))),
                Ok(values) => Ok(values),
            },
        }
    }

    /// The request of `list_clear`.
    pub fn list_clear_request(&self, key: &str) -> (r: Result<Invocation, Error>)
        ensures
            outcome(r) == spec_request(self@, OP_CLEAR@, Message::ListClearRequest { key: key@ }),
    {
        prepare(self.binding.as_str(), CAPID_KEYVALUE, OP_CLEAR, codec::encode_list_clear(key))
    }

    /// The request of `set_add`.
    pub fn set_add_request(&self, key: &str, value: &str) -> (r: Result<Invocation, Error>)
        ensures
            outcome(r) == spec_request(
                self@,
                OP_SET_ADD@,
                Message::SetAddRequest { key: key@, value: value@ },
            ),
    {
        prepare(
            self.binding.as_str(),
            CAPID_KEYVALUE,
            OP_SET_ADD,
            codec::encode_set_add(key, value),
        )
    }

    /// The request of `set_remove`.
    pub fn set_remove_request(&self, key: &str, value: &str) -> (r: Result<Invocation, Error>)
        ensures
            outcome(r) == spec_request(
                self@,
                OP_SET_REMOVE@,
                Message::SetRemoveRequest { key: key@, value: value@ },
            ),
    {
        prepare(
            self.binding.as_str(),
            CAPID_KEYVALUE,
            OP_SET_REMOVE,
            codec::encode_set_remove(key, value),
        )
    }

    /// Reads the reply to `set_add` and to `set_remove`.
    pub fn set_count_response(reply: Result<Vec<u8>, HostFailure>) -> (r: Result<usize, Error>)
        ensures
            outcome(r) == spec_set_count_response(answer(reply)),
    {
        match reply {
            Err(e) => Err(new(ErrorKind::WapcError(e))),
            Ok(bytes) => match codec::decode_set_operation_response(bytes.as_slice()) {
                Err(words) => Err(new(ErrorKind::Serialization(words))),
                Ok(new_count) => count(new_count),
            },
        }
    }

    /// The request of `set_union`.
    pub fn set_union_request(&self, keys: &Vec<String>) -> (r: Result<Invocation, Error>)
        ensures
            outcome(r) == spec_request(
                self@,
                OP_SET_UNION@,
                Message::SetUnionRequest { keys: keys.deep_view() },
            ),
    {
        prepare(
            self.binding.as_str(),
            CAPID_KEYVALUE,
            OP_SET_UNION,
            codec::encode_set_union(keys),
        )
    }

    /// The request of `set_intersect`.
    pub fn set_intersect_request(&self, keys: &Vec<String>) -> (r: Result<Invocation, Error>)
        ensures
            outcome(r) == spec_request(
                self@,
                OP_SET_INTERSECT@,
                Message::SetIntersectionRequest { keys: keys.deep_view() },
            ),
    {
        prepare(
            self.binding.as_str(),
            CAPID_KEYVALUE,
            OP_SET_INTERSECT,
            codec::encode_set_intersection(keys),
        )
    }

    /// The request of `set_members`.
    pub fn set_members_request(&self, key: &str) -> (r: Result<Invocation, Error>)
        ensures
            outcome(r) == spec_request(
                self@,
                OP_SET_QUERY@,
                Message::SetQueryRequest { key: key@ },
            ),
    {
        prepare(self.binding.as_str(), CAPID_KEYVALUE, OP_SET_QUERY, codec::encode_set_query(key))
    }

    /// Reads the reply to `set_union`, to `set_intersect` and to `set_members`.
    pub fn set_values_response(reply: Result<Vec<u8>, HostFailure>) -> (r: Result<
        Vec<String>,
        Error,
    >)
        ensures
            outcome(r) == spec_set_values_response(answer(reply)),
    {
        match reply {
            Err(e) => Err(new(ErrorKind::WapcError(e))),
            Ok(bytes) => match codec::decode_set_query_response(bytes.as_slice()) {
                Err(words) => Err(new(ErrorKind::Serialization(words))),
                Ok(values) => Ok(values),
            },
        }
    }

    /// The request of `key_exists`.
    pub fn key_exists_request(&self, key: &str) -> (r: Result<Invocation, Error>)
        ensures
            outcome(r) == spec_request(
                self@,
                OP_KEY_EXISTS@,
                Message::KeyExistsQuery { key: key@ },
            ),
    {
        prepare(
            self.binding.as_str(),
            CAPID_KEYVALUE,
            OP_KEY_EXISTS,
            codec::encode_key_exists(key),
        )
    }

    /// Reads the reply to `key_exists`.
    pub fn key_exists_response(reply: Result<Vec<u8>, HostFailure>) -> (r: Result<bool, Error>)
        ensures
            outcome(r) == spec_key_exists_response(answer(reply)),
    {
        match reply {
            Err(e) => Err(new(ErrorKind::WapcError(e))),
            Ok(bytes) => match codec::decode_get_response(bytes.as_slice()) {
                Err(words) => Err(new(ErrorKind::Serialization(words))),
                Ok(found) => Ok(found.1),
            },
        }
    }
}

impl KeyValueStore for KeyValueStoreHostBinding {
    /// Fetches the value of a key, or finds that the store does not hold the key.
    fn get(&self, key: &str) -> (r: Result<Option<String>, Error>)
        ensures
            round_trip(
                spec_request(self@, OP_GET@, Message::GetRequest { key: key@ }),
                |reply: Result<Seq<u8>, HostFailure>| spec_get_response(reply),
                outcome(r),
            ),
    {
        match self.get_request(key) {
            Err(e) => Err(e),
            Ok(call) => {
                let reply = host_call(&call);
                let ghost heard = answer(reply);
                let r = Self::get_response(reply);
                assert(outcome(r) == (|reply: Result<Seq<u8>, HostFailure>|
                    spec_get_response(reply))(heard));
                r
            },
        }
    }

    /// Sets the value of a key, for good or until `expires` seconds have passed.
    fn set(&self, key: &str, value: &str, expires: Option<u32>) -> (r: Result<(), Error>)
        ensures
            round_trip(
                spec_set_request(self@, key@, value@, expires),
                |reply: Result<Seq<u8>, HostFailure>| spec_acknowledged(reply),
                outcome(r),
            ),
    {
        match self.set_request(key, value, expires) {
            Err(e) => Err(e),
            Ok(call) => {
                let reply = host_call(&call);
                let ghost heard = answer(reply);
                let r = acknowledged(reply);
                assert(outcome(r) == (|reply: Result<Seq<u8>, HostFailure>|
                    spec_acknowledged(reply))(heard));
                r
            },
        }
    }

    /// Adds `value` to the number under a key in one step and returns the new number.
    fn atomic_add(&self, key: &str, value: i32) -> (r: Result<i32, Error>)
        ensures
            round_trip(
                spec_request(self@, OP_ADD@, Message::AddRequest { key: key@, value }),
                |reply: Result<Seq<u8>, HostFailure>| spec_add_response(reply),
                outcome(r),
            ),
    {
        match self.atomic_add_request(key, value) {
            Err(e) => Err(e),
            Ok(call) => {
                let reply = host_call(&call);
                let ghost heard = answer(reply);
                let r = Self::atomic_add_response(reply);
                assert(outcome(r) == (|reply: Result<Seq<u8>, HostFailure>|
                    spec_add_response(reply))(heard));
                r
            },
        }
    }

    /// Appends an item to the list under a key and returns the list's new length.
    fn list_add(&self, key: &str, item: &str) -> (r: Result<usize, Error>)
        ensures
            round_trip(
                spec_request(self@, OP_PUSH@, Message::ListPushRequest { key: key@, value: item@ }),
                |reply: Result<Seq<u8>, HostFailure>| spec_list_count_response(reply),
                outcome(r),
            ),
    {
        match self.list_add_request(key, item) {
            Err(e) => Err(e),
            Ok(call) => {
                let reply = host_call(&call);
                let ghost heard = answer(reply);
                let r = Self::list_count_response(reply);
                assert(outcome(r) == (|reply: Result<Seq<u8>, HostFailure>|
                    spec_list_count_response(reply))(heard));
                r
            },
        }
    }

    /// Removes every occurrence of an item from the list under a key and returns the
    /// count that the store reports.
    fn list_del_item(&self, key: &str, item: &str) -> (r: Result<usize, Error>)
        ensures
            round_trip(
                spec_request(
                    self@,
                    OP_LIST_DEL@,
                    Message::ListDelItemRequest { key: key@, value: item@ },
                ),
                |reply: Result<Seq<u8>, HostFailure>| spec_list_count_response(reply),
                outcome(r),
            ),
    {
        match self.list_del_item_request(key, item) {
            Err(e) => Err(e),
            Ok(call) => {
                let reply = host_call(&call);
                let ghost heard = answer(reply);
                let r = Self::list_count_response(reply);
                assert(outcome(r) == (|reply: Result<Seq<u8>, HostFailure>|
                    spec_list_count_response(reply))(heard));
                r
            },
        }
    }

    /// Deletes a key.
    fn del_key(&self, key: &str) -> (r: Result<(), Error>)
        ensures
            round_trip(
                spec_request(self@, OP_DEL@, Message::DelRequest { key: key@ }),
                |reply: Result<Seq<u8>, HostFailure>| spec_acknowledged(reply),
                outcome(r),
            ),
    {
        match self.del_key_request(key) {
            Err(e) => Err(e),
            Ok(call) => {
                let reply = host_call(&call);
                let ghost heard = answer(reply);
                let r = acknowledged(reply);
                assert(outcome(r) == (|reply: Result<Seq<u8>, HostFailure>|
                    spec_acknowledged(reply))(heard));
                r
            },
        }
    }

    /// Fetches the items of the list under a key from position `start` to position
    /// `stop_inclusive`. A negative position counts from the end of the list, as the store
    /// defines it.
    fn list_range(&self, key: &str, start: isize, stop_inclusive: isize) -> (r: Result<
        Vec<String>,
        Error,
    >)
        ensures
            round_trip(
                spec_list_range_request(self@, key@, start, stop_inclusive),
                |reply: Result<Seq<u8>, HostFailure>| spec_list_values_response(reply),
                outcome(r),
            ),
    {
        match self.list_range_request(key, start, stop_inclusive) {
            Err(e) => Err(e),
            Ok(call) => {
                let reply = host_call(&call);
                let ghost heard = answer(reply);
                let r = Self::list_range_response(reply);
                assert(outcome(r) == (|reply: Result<Seq<u8>, HostFailure>|
                    spec_list_values_response(reply))(heard));
                r
            },
        }
    }

    /// Empties the list under a key.
    fn list_clear(&self, key: &str) -> (r: Result<(), Error>)
        ensures
            round_trip(
                spec_request(self@, OP_CLEAR@, Message::ListClearRequest { key: key@ }),
                |reply: Result<Seq<u8>, HostFailure>| spec_acknowledged(reply),
                outcome(r),
            ),
    {
        match self.list_clear_request(key) {
            Err(e) => Err(e),
            Ok(call) => {
                let reply = host_call(&call);
                let ghost heard = answer(reply);
                let r = acknowledged(reply);
                assert(outcome(r) == (|reply: Result<Seq<u8>, HostFailure>|
                    spec_acknowledged(reply))(heard));
                r
            },
        }
    }

    /// Adds a value to the set under a key and returns the set's new size.
    fn set_add(&self, key: &str, value: &str) -> (r: Result<usize, Error>)
        ensures
            round_trip(
                spec_request(
                    self@,
                    OP_SET_ADD@,
                    Message::SetAddRequest { key: key@, value: value@ },
                ),
                |reply: Result<Seq<u8>, HostFailure>| spec_set_count_response(reply),
                outcome(r),
            ),
    {
        match self.set_add_request(key, value) {
            Err(e) => Err(e),
            Ok(call) => {
                let reply = host_call(&call);
                let ghost heard = answer(reply);
                let r = Self::set_count_response(reply);
                assert(outcome(r) == (|reply: Result<Seq<u8>, HostFailure>|
                    spec_set_count_response(reply))(heard));
                r
            },
        }
    }

    /// Removes a value from the set under a key and returns the set's new size.
    fn set_remove(&self, key: &str, value: &str) -> (r: Result<usize, Error>)
        ensures
            round_trip(
                spec_request(
                    self@,
                    OP_SET_REMOVE@,
                    Message::SetRemoveRequest { key: key@, value: value@ },
                ),
                |reply: Result<Seq<u8>, HostFailure>| spec_set_count_response(reply),
                outcome(r),
            ),
    {
        match self.set_remove_request(key, value) {
            Err(e) => Err(e),
            Ok(call) => {
                let reply = host_call(&call);
                let ghost heard = answer(reply);
                let r = Self::set_count_response(reply);
                assert(outcome(r) == (|reply: Result<Seq<u8>, HostFailure>|
                    spec_set_count_response(reply))(heard));
                r
            },
        }
    }

    /// Fetches the members of the union of the sets under the given keys, as the store
    /// lists them.
    fn set_union(&self, keys: Vec<String>) -> (r: Result<Vec<String>, Error>)
        ensures
            round_trip(
                spec_request(
                    self@,
                    OP_SET_UNION@,
                    Message::SetUnionRequest { keys: keys.deep_view() },
                ),
                |reply: Result<Seq<u8>, HostFailure>| spec_set_values_response(reply),
                outcome(r),
            ),
    {
        match self.set_union_request(&keys) {
            Err(e) => Err(e),
            Ok(call) => {
                let reply = host_call(&call);
                let ghost heard = answer(reply);
                let r = Self::set_values_response(reply);
                assert(outcome(r) == (|reply: Result<Seq<u8>, HostFailure>|
                    spec_set_values_response(reply))(heard));
                r
            },
        }
    }

    /// Fetches the members that the sets under the given keys have in common, as the
    /// store lists them.
    fn set_intersect(&self, keys: Vec<String>) -> (r: Result<Vec<String>, Error>)
        ensures
            round_trip(
                spec_request(
                    self@,
                    OP_SET_INTERSECT@,
                    Message::SetIntersectionRequest { keys: keys.deep_view() },
                ),
                |reply: Result<Seq<u8>, HostFailure>| spec_set_values_response(reply),
                outcome(r),
            ),
    {
        match self.set_intersect_request(&keys) {
            Err(e) => Err(e),
            Ok(call) => {
                let reply = host_call(&call);
                let ghost heard = answer(reply);
                let r = Self::set_values_response(reply);
                assert(outcome(r) == (|reply: Result<Seq<u8>, HostFailure>|
                    spec_set_values_response(reply))(heard));
                r
            },
        }
    }

    /// Fetches the members of the set under a key.
    fn set_members(&self, key: &str) -> (r: Result<Vec<String>, Error>)
        ensures
            round_trip(
                spec_request(self@, OP_SET_QUERY@, Message::SetQueryRequest { key: key@ }),
                |reply: Result<Seq<u8>, HostFailure>| spec_set_values_response(reply),
                outcome(r),
            ),
    {
        match self.set_members_request(key) {
            Err(e) => Err(e),
            Ok(call) => {
                let reply = host_call(&call);
                let ghost heard = answer(reply);
                let r = Self::set_values_response(reply);
                assert(outcome(r) == (|reply: Result<Seq<u8>, HostFailure>|
                    spec_set_values_response(reply))(heard));
                r
            },
        }
    }

    /// Tells whether the store holds a key.
    fn key_exists(&self, key: &str) -> (r: Result<bool, Error>)
        ensures
            round_trip(
                spec_request(self@, OP_KEY_EXISTS@, Message::KeyExistsQuery { key: key@ }),
                |reply: Result<Seq<u8>, HostFailure>| spec_key_exists_response(reply),
                outcome(r),
            ),
    {
        match self.key_exists_request(key) {
            Err(e) => Err(e),
            Ok(call) => {
                let reply = host_call(&call);
                let ghost heard = answer(reply);
                let r = Self::key_exists_response(reply);
                assert(outcome(r) == (|reply: Result<Seq<u8>, HostFailure>|
                    spec_key_exists_response(reply))(heard));
                r
            },
        }
    }
}

} // verus!
