//! The client of the event streams capability.

use crate::codec;
use crate::errors::{new, Error, ErrorKind, ErrorView};
use crate::transport::{
    answer, host_call, outcome, prepare, round_trip, spec_prepare, spec_read, Invocation,
    InvocationView,
};
use crate::wire::{encoding, EventView, Message, Shape, CAPID_EVENTSTREAMS, DEFAULT_BINDING};
use crate::EventStreams;
use std::collections::HashMap;
use vstd::prelude::*;
use wapc_guest::errors::Error as HostFailure;

verus! {

/// The inbound operation that delivers an event to the guest.
pub const OP_DELIVER_EVENT: &'static str = "DeliverEvent";

/// Appends an event to a stream.
pub const OP_WRITE_EVENT: &'static str = "WriteEvent";

/// Reads events of a stream.
pub const OP_QUERY_STREAM: &'static str = "QueryStream";

/// One event of a stream: an id that the provider gave it, and its fields.
#[derive(Debug, Clone, PartialEq)]
pub struct Event {
    /// The id of the event, unique in its stream.
    pub event_id: String,
    /// The stream that holds the event.
    pub stream: String,
    /// The fields of the event, by name.
    pub values: HashMap<String, String>,
}

impl DeepView for Event {
    type V = EventView;

    open spec fn deep_view(&self) -> EventView {
        EventView {
            event_id: self.event_id@,
            stream: self.stream@,
            values: self.values.deep_view(),
        }
    }
}

/// A client of one event streams provider instance of the host.
pub struct EventStreamsHostBinding {
    binding: String,
}

impl View for EventStreamsHostBinding {
    type V = Seq<char>;

    /// The name of the provider instance that the client addresses.
    closed spec fn view(&self) -> Seq<char> {
        self.binding@
    }
}

/// Creates an event streams client that addresses the provider instance `binding`.
pub fn host(binding: &str) -> (r: EventStreamsHostBinding)
    ensures
        r@ == binding@,
{
    EventStreamsHostBinding { binding: binding.to_string() }
}

/// Creates an event streams client that addresses the provider instance named `default`.
pub fn default() -> (r: EventStreamsHostBinding)
    ensures
        r@ == DEFAULT_BINDING@,
{
    EventStreamsHostBinding { binding: DEFAULT_BINDING.to_string() }
}

/// The request of `read_all`: every event of the stream, whenever it was written.
pub open spec fn spec_read_all_request(binding: Seq<char>, stream: Seq<char>) -> Result<
    InvocationView,
    ErrorView,
> {
    spec_prepare(
        binding,
        CAPID_EVENTSTREAMS@,
        OP_QUERY_STREAM@,
        encoding(Message::StreamQuery { stream_id: stream, range: None, count: 0 }),
    )
}

/// What is known of the request of `write_event`: where it goes, if the codec took the
/// event, and that nothing but the codec can refuse it.
pub open spec fn spec_write_event_request(
    binding: Seq<char>,
    request: Result<InvocationView, ErrorView>,
) -> bool {
    match request {
        Ok(call) => call.binding == binding && call.capability_id == CAPID_EVENTSTREAMS@
            && call.operation == OP_WRITE_EVENT@,
        Err(e) => e is Serialization,
    }
}

/// What a reply to `write_event` means: the id that the provider gave the new event.
pub open spec fn spec_write_event_response(reply: Result<Seq<u8>, HostFailure>) -> Result<
    Seq<char>,
    ErrorView,
> {
    spec_read(Shape::WriteResponse, reply, |m: Message| m->WriteResponse_event_id)
}

/// What a reply to `read_all` means: the events in the order of the reply.
pub open spec fn spec_read_all_response(reply: Result<Seq<u8>, HostFailure>) -> Result<
    Seq<EventView>,
    ErrorView,
> {
    spec_read(Shape::StreamResults, reply, |m: Message| m->StreamResults_events)
}

impl EventStreamsHostBinding {
    /// The request of `write_event`: an event without an id, which the provider will
    /// give it. The bytes of the event are the codec's: the order in which it writes the
    /// fields is not fixed.
    pub fn write_event_request(&self, stream: &str, values: &HashMap<String, String>) -> (r:
        Result<Invocation, Error>)
        ensures
            spec_write_event_request(self@, outcome(r)),
    {
        prepare(
            self.binding.as_str(),
            CAPID_EVENTSTREAMS,
            OP_WRITE_EVENT,
            codec::encode_event("", stream, values),
        )
    }

    /// Reads the reply to `write_event`.
    pub fn write_event_response(reply: Result<Vec<u8>, HostFailure>) -> (r: Result<
        String,
        Error,
    >)
        ensures
            outcome(r) == spec_write_event_response(answer(reply)),
    {
        match reply {
            Err(e) => Err(new(ErrorKind::WapcError(e))),
            Ok(bytes) => match codec::decode_write_response(bytes.as_slice()) {
                Err(words) => Err(new(ErrorKind::Serialization(words))),
                Ok(event_id) => Ok(event_id),
            },
        }
    }

    /// The request of `read_all`.
    pub fn read_all_request(&self, stream: &str) -> (r: Result<Invocation, Error>)
        ensures
            outcome(r) == spec_read_all_request(self@, stream@),
    {
        prepare(
            self.binding.as_str(),
            CAPID_EVENTSTREAMS,
            OP_QUERY_STREAM,
            codec::encode_stream_query(stream, None, 0),
        )
    }

    /// Reads the reply to `read_all`.
    pub fn read_all_response(reply: Result<Vec<u8>, HostFailure>) -> (r: Result<
        Vec<Event>,
        Error,
    >)
        ensures
            outcome(r) == spec_read_all_response(answer(reply)),
    {
        match reply {
            Err(e) => Err(new(ErrorKind::WapcError(e))),
            Ok(bytes) => match codec::decode_stream_results(bytes.as_slice()) {
                Err(words) => Err(new(ErrorKind::Serialization(words))),
                Ok(events) => Ok(events),
            },
        }
    }
}

impl EventStreams for EventStreamsHostBinding {
    /// Appends an event with the given fields to a stream and returns the id that the
    /// provider gave it.
    fn write_event(&self, stream: &str, values: HashMap<String, String>) -> (r: Result<
        String,
        Error,
    >)
        ensures
            exists|request: Result<InvocationView, ErrorView>|
                #[trigger] spec_write_event_request(self@, request) && round_trip(
                    request,
                    |reply: Result<Seq<u8>, HostFailure>| spec_write_event_response(reply),
                    outcome(r),
                ),
    {
        let request = self.write_event_request(stream, &values);
        let ghost asked = outcome(request);
        match request {
            Err(e) => {
                let r = Err(e);
                assert(round_trip(
                    asked,
                    |reply: Result<Seq<u8>, HostFailure>| spec_write_event_response(reply),
                    outcome::<String>(r),
                ));
                r
            },
            Ok(call) => {
                let reply = host_call(&call);
                let ghost heard = answer(reply);
                let r = Self::write_event_response(reply);
                assert(outcome(r) == (|reply: Result<Seq<u8>, HostFailure>|
                    spec_write_event_response(reply))(heard));
                assert(round_trip(
                    asked,
                    |reply: Result<Seq<u8>, HostFailure>| spec_write_event_response(reply),
                    outcome(r),
                ));
                r
            },
        }
    }

    /// Reads all the events of a stream, in the order in which the provider returns them.
    fn read_all(&self, stream: &str) -> (r: Result<Vec<Event>, Error>)
        ensures
            round_trip(
                spec_read_all_request(self@, stream@),
                |reply: Result<Seq<u8>, HostFailure>| spec_read_all_response(reply),
                outcome(r),
            ),
    {
        match self.read_all_request(stream) {
            Err(e) => Err(e),
            Ok(call) => {
                let reply = host_call(&call);
                let ghost heard = answer(reply);
                let r = Self::read_all_response(reply);
                assert(outcome(r) == (|reply: Result<Seq<u8>, HostFailure>|
                    spec_read_all_response(reply))(heard));
                r
            },
        }
    }
}

} // verus!
