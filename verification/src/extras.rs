//! The client of the extras capability: what a guest cannot make by itself, which is
//! random numbers, unique identifiers and sequence numbers.

use crate::codec;
use crate::errors::{new, Error, ErrorKind, ErrorView};
use crate::transport::{
    answer, host_call, outcome, prepare, round_trip, spec_prepare, spec_read, Invocation,
    InvocationView,
};
use crate::wire::{decoding, encoding, Message, Shape, CAPID_EXTRAS, DEFAULT_BINDING};
use crate::Extras;
use vstd::prelude::*;
use wapc_guest::errors::Error as HostFailure;

verus! {

/// Asks for a unique identifier.
pub const OP_REQUEST_GUID: &'static str = "RequestGuid";

/// Asks for the next sequence number.
pub const OP_REQUEST_SEQUENCE: &'static str = "RequestSequence";

/// Asks for a random number within a range.
pub const OP_REQUEST_RANDOM: &'static str = "RequestRandom";

/// The identifier that is returned where the reply holds none.
pub const NO_GUID: &'static str = "none";

/// A client of one extras provider instance of the host.
pub struct ExtrasHostBinding {
    binding: String,
}

impl View for ExtrasHostBinding {
    type V = Seq<char>;

    /// The name of the provider instance that the client addresses.
    closed spec fn view(&self) -> Seq<char> {
        self.binding@
    }
}

/// Creates an extras client that addresses the provider instance `binding`.
pub fn host(binding: &str) -> (r: ExtrasHostBinding)
    ensures
        r@ == binding@,
{
    ExtrasHostBinding { binding: binding.to_string() }
}

/// Creates an extras client that addresses the provider instance named `default`.
pub fn default() -> (r: ExtrasHostBinding)
    ensures
        r@ == DEFAULT_BINDING@,
{
    ExtrasHostBinding { binding: DEFAULT_BINDING.to_string() }
}

/// The request of `get_random`.
pub open spec fn spec_random_request(binding: Seq<char>, min: u32, max: u32) -> Result<
    InvocationView,
    ErrorView,
> {
    spec_prepare(
        binding,
        CAPID_EXTRAS@,
        OP_REQUEST_RANDOM@,
        encoding(
            Message::GeneratorRequest { guid: false, sequence: false, random: true, min, max },
        ),
    )
}

/// The request of `get_guid`.
pub open spec fn spec_guid_request(binding: Seq<char>) -> Result<InvocationView, ErrorView> {
    spec_prepare(
        binding,
        CAPID_EXTRAS@,
        OP_REQUEST_GUID@,
        encoding(
            Message::GeneratorRequest {
                guid: true,
                sequence: false,
                random: false,
                min: 0,
                max: 0,
            },
        ),
    )
}

/// The request of `get_sequence_number`.
pub open spec fn spec_sequence_request(binding: Seq<char>) -> Result<InvocationView, ErrorView> {
    spec_prepare(
        binding,
        CAPID_EXTRAS@,
        OP_REQUEST_SEQUENCE@,
        encoding(
            Message::GeneratorRequest {
                guid: false,
                sequence: true,
                random: false,
                min: 0,
                max: 0,
            },
        ),
    )
}

/// What a reply to `get_random` means: the number that the host drew.
pub open spec fn spec_random_response(reply: Result<Seq<u8>, HostFailure>) -> Result<
    u32,
    ErrorView,
> {
    spec_read(Shape::GeneratorResult, reply, |m: Message| m->GeneratorResult_random_number)
}

/// What a reply to `get_guid` means: the identifier, if the reply holds one.
pub open spec fn spec_guid_response(reply: Result<Seq<u8>, HostFailure>) -> Result<
    Seq<char>,
    ErrorView,
> {
    spec_read(
        Shape::GeneratorResult,
        reply,
        |m: Message|
            match m->GeneratorResult_guid {
                Some(guid) => guid,
                None => NO_GUID@,
            },
    )
}

/// What a reply to `get_sequence_number` means: the number that the host counted to.
pub open spec fn spec_sequence_response(reply: Result<Seq<u8>, HostFailure>) -> Result<
    u64,
    ErrorView,
> {
    spec_read(Shape::GeneratorResult, reply, |m: Message| m->GeneratorResult_sequence_number)
}

/// The client returns the number that the host drew, and no other: where the host kept
/// to the range that it was asked for, `min` to `max`, so does the result.
pub proof fn lemma_random_within_range(min: u32, max: u32, bytes: Seq<u8>)
    requires
        min <= max,
        decoding(Shape::GeneratorResult, bytes) matches Ok(m) && min
            <= m->GeneratorResult_random_number <= max,
    ensures
        spec_random_response(Ok(bytes)) matches Ok(n) && min <= n <= max,
{
}

impl ExtrasHostBinding {
    /// The request of `get_random`: it asks for a random number and nothing else, and
    /// carries the range.
    pub fn get_random_request(&self, min: u32, max: u32) -> (r: Result<Invocation, Error>)
        ensures
            outcome(r) == spec_random_request(self@, min, max),
    {
        prepare(
            self.binding.as_str(),
            CAPID_EXTRAS,
            OP_REQUEST_RANDOM,
            codec::encode_generator_request(false, false, true, min, max),
        )
    }

    /// Reads the reply to `get_random`.
    pub fn get_random_response(reply: Result<Vec<u8>, HostFailure>) -> (r: Result<u32, Error>)
        ensures
            outcome(r) == spec_random_response(answer(reply)),
    {
        match reply {
            Err(e) => Err(new(ErrorKind::WapcError(e))),
            Ok(bytes) => match codec::decode_generator_result(bytes.as_slice()) {
                Err(words) => Err(new(ErrorKind::Serialization(words))),
                Ok(generated) => Ok(generated.2),
            },
        }
    }

    /// The request of `get_guid`.
    pub fn get_guid_request(&self) -> (r: Result<Invocation, Error>)
        ensures
            outcome(r) == spec_guid_request(self@),
    {
        prepare(
            self.binding.as_str(),
            CAPID_EXTRAS,
            OP_REQUEST_GUID,
            codec::encode_generator_request(true, false, false, 0, 0),
        )
    }

    /// Reads the reply to `get_guid`.
    pub fn get_guid_response(reply: Result<Vec<u8>, HostFailure>) -> (r: Result<String, Error>)
        ensures
            outcome(r) == spec_guid_response(answer(reply)),
    {
        match reply {
            Err(e) => Err(new(ErrorKind::WapcError(e))),
            Ok(bytes) => match codec::decode_generator_result(bytes.as_slice()) {
                Err(words) => Err(new(ErrorKind::Serialization(words))),
                Ok(generated) => match generated.0 {
                    Some(guid) => Ok(guid),
                    None => Ok(NO_GUID.to_string()),
                },
            },
        }
    }

    /// The request of `get_sequence_number`.
    pub fn get_sequence_number_request(&self) -> (r: Result<Invocation, Error>)
        ensures
            outcome(r) == spec_sequence_request(self@),
    {
        prepare(
            self.binding.as_str(),
            CAPID_EXTRAS,
            OP_REQUEST_SEQUENCE,
            codec::encode_generator_request(false, true, false, 0, 0),
        )
    }

    /// Reads the reply to `get_sequence_number`.
    pub fn get_sequence_number_response(reply: Result<Vec<u8>, HostFailure>) -> (r: Result<
        u64,
        Error,
    >)
        ensures
            outcome(r) == spec_sequence_response(answer(reply)),
    {
        match reply {
            Err(e) => Err(new(ErrorKind::WapcError(e))),
            Ok(bytes) => match codec::decode_generator_result(bytes.as_slice()) {
                Err(words) => Err(new(ErrorKind::Serialization(words))),
                Ok(generated) => Ok(generated.1),
            },
        }
    }
}

impl Extras for ExtrasHostBinding {
    /// Asks the host for a random number from `min` to `max`. The number is the host's:
    /// the client hands on what the reply holds.
    fn get_random(&self, min: u32, max: u32) -> (r: Result<u32, Error>)
        ensures
            round_trip(
                spec_random_request(self@, min, max),
                |reply: Result<Seq<u8>, HostFailure>| spec_random_response(reply),
                outcome(r),
            ),
    {
        match self.get_random_request(min, max) {
            Err(e) => Err(e),
            Ok(call) => {
                let reply = host_call(&call);
                let ghost heard = answer(reply);
                let r = Self::get_random_response(reply);
                assert(outcome(r) == (|reply: Result<Seq<u8>, HostFailure>|
                    spec_random_response(reply))(heard));
                r
            },
        }
    }

    /// Asks the host for a unique identifier in text form.
    fn get_guid(&self) -> (r: Result<String, Error>)
        ensures
            round_trip(
                spec_guid_request(self@),
                |reply: Result<Seq<u8>, HostFailure>| spec_guid_response(reply),
                outcome(r),
            ),
    {
        match self.get_guid_request() {
            Err(e) => Err(e),
            Ok(call) => {
                let reply = host_call(&call);
                let ghost heard = answer(reply);
                let r = Self::get_guid_response(reply);
                assert(outcome(r) == (|reply: Result<Seq<u8>, HostFailure>|
                    spec_guid_response(reply))(heard));
                r
            },
        }
    }

    /// Asks the host for the next sequence number. The numbers grow, and no two calls get
    /// the same one, as long as the same host process answers.
    fn get_sequence_number(&self) -> (r: Result<u64, Error>)
        ensures
            round_trip(
                spec_sequence_request(self@),
                |reply: Result<Seq<u8>, HostFailure>| spec_sequence_response(reply),
                outcome(r),
            ),
    {
        match self.get_sequence_number_request() {
            Err(e) => Err(e),
            Ok(call) => {
                let reply = host_call(&call);
                let ghost heard = answer(reply);
                let r = Self::get_sequence_number_response(reply);
                assert(outcome(r) == (|reply: Result<Seq<u8>, HostFailure>|
                    spec_sequence_response(reply))(heard));
                r
            },
        }
    }
}

} // verus!
