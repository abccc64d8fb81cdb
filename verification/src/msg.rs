//! The client of the messaging capability.

use crate::codec;
use crate::errors::{new, Error, ErrorKind, ErrorView};
use crate::transport::{
    acknowledged, answer, host_call, outcome, prepare, round_trip, spec_acknowledged,
    spec_payload, spec_prepare, Invocation, InvocationView,
};
use crate::wire::{encoding, Message, CAPID_MESSAGING, DEFAULT_BINDING};
use crate::MessageBroker;
use vstd::prelude::*;
use wapc_guest::errors::Error as HostFailure;

verus! {

/// Publishes a message and does not wait for anything.
pub const OP_PUBLISH_MESSAGE: &'static str = "Publish";

/// The inbound operation that delivers a message to the guest.
pub const OP_DELIVER_MESSAGE: &'static str = "DeliverMessage";

/// Publishes a message and waits for one reply to it.
pub const OP_PERFORM_REQUEST: &'static str = "Request";

/// The words of the error for a timeout that the wire cannot carry.
pub const TIMEOUT_OUT_OF_RANGE: &'static str = "timeout does not fit in 63 bits";

/// A client of one message broker provider instance of the host.
pub struct MessageBrokerHostBinding {
    binding: String,
}

impl View for MessageBrokerHostBinding {
    type V = Seq<char>;

    /// The name of the provider instance that the client addresses.
    closed spec fn view(&self) -> Seq<char> {
        self.binding@
    }
}

/// Creates a messaging client that addresses the provider instance `binding`.
pub fn host(binding: &str) -> (r: MessageBrokerHostBinding)
    ensures
        r@ == binding@,
{
    MessageBrokerHostBinding { binding: binding.to_string() }
}

/// Creates a messaging client that addresses the provider instance named `default`.
pub fn default() -> (r: MessageBrokerHostBinding)
    ensures
        r@ == DEFAULT_BINDING@,
{
    MessageBrokerHostBinding { binding: DEFAULT_BINDING.to_string() }
}

/// The subject that replies go to, as the wire carries it: empty where there is none.
pub open spec fn spec_reply_to(reply_to: Option<&str>) -> Seq<char> {
    match reply_to {
        Some(subject) => subject@,
        None => Seq::empty(),
    }
}

/// The request of `publish`.
pub open spec fn spec_publish_request(
    binding: Seq<char>,
    subject: Seq<char>,
    reply_to: Option<&str>,
    body: Seq<u8>,
) -> Result<InvocationView, ErrorView> {
    spec_prepare(
        binding,
        CAPID_MESSAGING@,
        OP_PUBLISH_MESSAGE@,
        encoding(Message::BrokerMessage { subject, reply_to: spec_reply_to(reply_to), body }),
    )
}

/// The request of `request`.
pub open spec fn spec_request_request(
    binding: Seq<char>,
    subject: Seq<char>,
    body: Seq<u8>,
    timeout_ms: u64,
) -> Result<InvocationView, ErrorView> {
    if timeout_ms <= i64::MAX {
        spec_prepare(
            binding,
            CAPID_MESSAGING@,
            OP_PERFORM_REQUEST@,
            encoding(Message::RequestMessage { subject, body, timeout_ms: timeout_ms as i64 }),
        )
    } else {
        Err(ErrorView::MessagingError(TIMEOUT_OUT_OF_RANGE@))
    }
}

impl MessageBrokerHostBinding {
    /// The request of `publish`.
    pub fn publish_request(&self, subject: &str, reply_to: Option<&str>, payload: &[u8]) -> (r:
        Result<Invocation, Error>)
        ensures
            outcome(r) == spec_publish_request(self@, subject@, reply_to, payload@),
    {
        let reply_to: &str = match reply_to {
            Some(subject) => subject,
            None => {
                proof {
                    reveal_strlit("");
                    assert(""@ =~= Seq::<char>::empty());
                }
                ""
            },
        };
        prepare(
            self.binding.as_str(),
            CAPID_MESSAGING,
            OP_PUBLISH_MESSAGE,
            codec::encode_broker_message(subject, reply_to, payload),
        )
    }

    /// The request of `request`. A timeout beyond the wire's range is refused here.
    pub fn request_request(&self, subject: &str, payload: &[u8], timeout_ms: u64) -> (r: Result<
        Invocation,
        Error,
    >)
        ensures
            outcome(r) == spec_request_request(self@, subject@, payload@, timeout_ms),
    {
        if timeout_ms <= 9223372036854775807 {
            prepare(
                self.binding.as_str(),
                CAPID_MESSAGING,
                OP_PERFORM_REQUEST,
                codec::encode_request_message(subject, payload, timeout_ms as i64),
            )
        } else {
            Err(new(ErrorKind::MessagingError(TIMEOUT_OUT_OF_RANGE.to_string())))
        }
    }
}

impl MessageBroker for MessageBrokerHostBinding {
    /// Publishes a message on a subject, with the subject that replies should go to if
    /// there is one. The host acknowledges that it took the message, no more.
    fn publish(&self, subject: &str, reply_to: Option<&str>, payload: &[u8]) -> (r: Result<
        (),
        Error,
    >)
        ensures
            round_trip(
                spec_publish_request(self@, subject@, reply_to, payload@),
                |reply: Result<Seq<u8>, HostFailure>| spec_acknowledged(reply),
                outcome(r),
            ),
    {
        match self.publish_request(subject, reply_to, payload) {
            Err(e) => Err(e),
            Ok(call) => {
                let reply = host_call(&call);
                let ghost heard = answer(reply);
                let r = acknowledged(reply);
                assert(outcome(r) == (|reply: Result<Seq<u8>, HostFailure>|
                    spec_acknowledged(reply))(heard));
                r
            },
        }
    }

    /// Publishes a message on a subject and waits for one reply, for at most `timeout_ms`
    /// milliseconds. The host keeps the time: a reply that does not come in time is a
    /// failure of the call like any other that the host reports, told apart by the host's
    /// words.
    fn request(&self, subject: &str, payload: &[u8], timeout_ms: u64) -> (r: Result<Vec<u8>, Error>)
        ensures
            round_trip(
                spec_request_request(self@, subject@, payload@, timeout_ms),
                |reply: Result<Seq<u8>, HostFailure>| spec_payload(reply),
                outcome(r),
            ),
    {
        match self.request_request(subject, payload, timeout_ms) {
            Err(e) => Err(e),
            Ok(call) => {
                let reply = host_call(&call);
                let ghost heard = answer(reply);
                let r = crate::transport::payload(reply);
                assert(outcome(r) == (|reply: Result<Seq<u8>, HostFailure>|
                    spec_payload(reply))(heard));
                r
            },
        }
    }
}

} // verus!
