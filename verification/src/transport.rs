//! The way out of the guest: one blocking foreign call that takes a binding, a capability
//! id, an operation and a payload, and comes back with a payload or an error.
//!
//! A facade never makes that call on loose arguments. It first builds an [`Invocation`],
//! which says in full what is sent, then hands it to the host, then reads the reply. The
//! first and the last step are plain functions of their arguments.

use crate::errors::{Error, ErrorKind, ErrorView};
use crate::wire::{decoding, is_capability_id, Message, Shape};
use vstd::prelude::*;
use wapc_guest::errors::Error as HostFailure;

verus! {

/// The character between the capability id and the operation in a route key.
pub const SEPARATOR: char = '!';

/// The route key of an operation of a capability: the capability id, the separator, the
/// operation.
pub open spec fn spec_route_key(capability_id: Seq<char>, operation: Seq<char>) -> Seq<char> {
    capability_id + seq![SEPARATOR] + operation
}

/// Composes the route key of an operation of a capability.
pub fn route_key(capability_id: &str, operation: &str) -> (key: String)
    ensures
        key@ == spec_route_key(capability_id@, operation@),
{
    let mut key = capability_id.to_string();
    key.append("!");
    key.append(operation);
    proof {
        reveal_strlit("!");
        assert("!"@ =~= seq![SEPARATOR]);
    }
    key
}

/// Two route keys are equal only if they were composed of the same capability id and the
/// same operation, provided that neither capability id holds the separator.
pub proof fn lemma_route_key_injective(
    capability_a: Seq<char>,
    operation_a: Seq<char>,
    capability_b: Seq<char>,
    operation_b: Seq<char>,
)
    requires
        !capability_a.contains(SEPARATOR),
        !capability_b.contains(SEPARATOR),
        spec_route_key(capability_a, operation_a) == spec_route_key(capability_b, operation_b),
    ensures
        capability_a == capability_b,
        operation_a == operation_b,
{
    let key_a = spec_route_key(capability_a, operation_a);
    let key_b = spec_route_key(capability_b, operation_b);
    let len_a = capability_a.len() as int;
    let len_b = capability_b.len() as int;
    assert(key_a[len_a] == SEPARATOR);
    assert(key_b[len_b] == SEPARATOR);
    if len_a < len_b {
        assert(key_b[len_a] == capability_b[len_a]);
        assert(capability_b.contains(SEPARATOR));
    }
    if len_b < len_a {
        assert(key_a[len_b] == capability_a[len_b]);
        assert(capability_a.contains(SEPARATOR));
    }
    assert(len_a == len_b);
    assert forall|i: int| 0 <= i < len_a implies capability_a[i] == capability_b[i] by {
        assert(key_a[i] == capability_a[i]);
        assert(key_b[i] == capability_b[i]);
    }
    assert(capability_a =~= capability_b);
    assert(key_a.len() == key_b.len());
    assert forall|i: int| 0 <= i < operation_a.len() implies operation_a[i] == operation_b[i] by {
        assert(key_a[len_a + 1 + i] == operation_a[i]);
        assert(key_b[len_b + 1 + i] == operation_b[i]);
    }
    assert(operation_a =~= operation_b);
}

/// None of the capability ids of this crate holds the separator.
pub proof fn lemma_capability_ids_hold_no_separator(id: Seq<char>)
    requires
        is_capability_id(id),
    ensures
        !id.contains(SEPARATOR),
{
    reveal_strlit("wascc:keyvalue");
    reveal_strlit("wascc:messaging");
    reveal_strlit("wascc:blobstore");
    reveal_strlit("wascc:logging");
    reveal_strlit("wascc:extras");
    reveal_strlit("wascc:eventstreams");
    if id.contains(SEPARATOR) {
        let i = choose|i: int| 0 <= i < id.len() && id[i] == SEPARATOR;
        assert(id[i] == SEPARATOR);
        assert(false);
    }
}

/// The route keys of two operations of this crate's capabilities are equal only if the
/// capabilities are the same and the operations are the same.
pub proof fn lemma_route_keys_tell_operations_apart(
    capability_a: Seq<char>,
    operation_a: Seq<char>,
    capability_b: Seq<char>,
    operation_b: Seq<char>,
)
    requires
        is_capability_id(capability_a),
        is_capability_id(capability_b),
        spec_route_key(capability_a, operation_a) == spec_route_key(capability_b, operation_b),
    ensures
        capability_a == capability_b,
        operation_a == operation_b,
{
    lemma_capability_ids_hold_no_separator(capability_a);
    lemma_capability_ids_hold_no_separator(capability_b);
    lemma_route_key_injective(capability_a, operation_a, capability_b, operation_b);
}

/// One call of the host, in full.
#[derive(Debug, Clone, PartialEq)]
pub struct Invocation {
    /// The provider instance that the call addresses.
    pub binding: String,
    /// The capability family of the provider.
    pub capability_id: String,
    /// The verb within the family.
    pub operation: String,
    /// The encoded request.
    pub payload: Vec<u8>,
}

/// The mathematical value of an [`Invocation`].
pub struct InvocationView {
    pub binding: Seq<char>,
    pub capability_id: Seq<char>,
    pub operation: Seq<char>,
    pub payload: Seq<u8>,
}

impl View for Invocation {
    type V = InvocationView;

    open spec fn view(&self) -> InvocationView {
        InvocationView {
            binding: self.binding@,
            capability_id: self.capability_id@,
            operation: self.operation@,
            payload: self.payload@,
        }
    }
}

impl DeepView for Invocation {
    type V = InvocationView;

    open spec fn deep_view(&self) -> InvocationView {
        self@
    }
}

impl Invocation {
    /// The route key under which the host finds the behaviour that the call asks for.
    pub fn route_key(&self) -> (key: String)
        ensures
            key@ == spec_route_key(self.capability_id@, self.operation@),
    {
        route_key(self.capability_id.as_str(), self.operation.as_str())
    }
}

/// The mathematical value of what a fallible step of a facade returns.
pub open spec fn outcome<T: DeepView>(r: Result<T, Error>) -> Result<T::V, ErrorView> {
    match r {
        Ok(value) => Ok(value.deep_view()),
        Err(e) => Err(e@),
    }
}

/// The mathematical value of what the host answers.
pub open spec fn answer(reply: Result<Vec<u8>, HostFailure>) -> Result<Seq<u8>, HostFailure> {
    match reply {
        Ok(bytes) => Ok(bytes@),
        Err(e) => Err(e),
    }
}

/// What a reply means that should hold a message of the given shape, which `judge` then
/// turns into the operation's result: a failure of the call is a transport failure, bytes
/// that the codec refuses are a serialization failure.
pub open spec fn spec_interpret<T>(
    shape: Shape,
    reply: Result<Seq<u8>, HostFailure>,
    judge: spec_fn(Message) -> Result<T, ErrorView>,
) -> Result<T, ErrorView> {
    match reply {
        Err(e) => Err(ErrorView::WapcError(e)),
        Ok(bytes) => match decoding(shape, bytes) {
            Err(words) => Err(ErrorView::Serialization(words)),
            Ok(message) => judge(message),
        },
    }
}

/// What a reply means that should hold a message of the given shape, of which the
/// operation returns `pick`.
pub open spec fn spec_read<T>(
    shape: Shape,
    reply: Result<Seq<u8>, HostFailure>,
    pick: spec_fn(Message) -> T,
) -> Result<T, ErrorView> {
    spec_interpret(shape, reply, |message: Message| Ok::<T, ErrorView>(pick(message)))
}

/// What one round trip to the host comes to. A request that could not be built fails
/// with its own error, and nothing is sent. Otherwise the host is called once, and the
/// result is what `read` makes of the host's reply, whatever that reply is.
pub open spec fn round_trip<T>(
    request: Result<InvocationView, ErrorView>,
    read: spec_fn(Result<Seq<u8>, HostFailure>) -> Result<T, ErrorView>,
    result: Result<T, ErrorView>,
) -> bool {
    match request {
        Err(e) => result == Err::<T, ErrorView>(e),
        Ok(_) => exists|reply: Result<Seq<u8>, HostFailure>| result == #[trigger] read(reply),
    }
}

/// A failure of the call and a reply that the codec refuses are told apart, whatever the
/// operation: the first is a transport failure that wraps the call's own error, the
/// second a serialization failure that carries the codec's words.
pub proof fn lemma_failures_keep_their_kind<T>(
    shape: Shape,
    reply: Result<Seq<u8>, HostFailure>,
    judge: spec_fn(Message) -> Result<T, ErrorView>,
)
    ensures
        reply matches Err(e) ==> {
            &&& spec_interpret(shape, reply, judge) == Err::<T, ErrorView>(ErrorView::WapcError(e))
            &&& spec_acknowledged(reply) == Err::<(), ErrorView>(ErrorView::WapcError(e))
            &&& spec_payload(reply) == Err::<Seq<u8>, ErrorView>(ErrorView::WapcError(e))
            &&& ErrorView::WapcError(e).is_transport()
            &&& !ErrorView::WapcError(e).is_serialization()
        },
        reply matches Ok(bytes) ==> (decoding(shape, bytes) matches Err(words) ==> {
            &&& spec_interpret(shape, reply, judge) == Err::<T, ErrorView>(
                ErrorView::Serialization(words),
            )
            &&& ErrorView::Serialization(words).is_serialization()
            &&& !ErrorView::Serialization(words).is_transport()
        }),
{
}

/// The invocation that carries an encoded request, or the serialization failure where the
/// codec refused the request.
pub open spec fn spec_prepare(
    binding: Seq<char>,
    capability_id: Seq<char>,
    operation: Seq<char>,
    encoded: Result<Seq<u8>, Seq<char>>,
) -> Result<InvocationView, ErrorView> {
    match encoded {
        Ok(payload) => Ok(InvocationView { binding, capability_id, operation, payload }),
        Err(words) => Err(ErrorView::Serialization(words)),
    }
}

/// Builds the invocation that carries an encoded request. Where the codec refused the
/// request, there is nothing to send, and its words come back as a serialization failure.
pub fn prepare(
    binding: &str,
    capability_id: &str,
    operation: &str,
    encoded: Result<Vec<u8>, String>,
) -> (r: Result<Invocation, Error>)
    ensures
        outcome(r) == spec_prepare(
            binding@,
            capability_id@,
            operation@,
            crate::wire::encoded(encoded),
        ),
{
    match encoded {
        Ok(payload) => Ok(
            Invocation {
                binding: binding.to_string(),
                capability_id: capability_id.to_string(),
                operation: operation.to_string(),
                payload,
            },
        ),
        Err(words) => Err(crate::errors::new(ErrorKind::Serialization(words))),
    }
}

/// `wapc_guest::host_call` with the four parts of the invocation. The call blocks until
/// the host has answered. What comes back is the host's to decide, so nothing is claimed
/// of it.
#[verifier::external_body]
pub(crate) fn host_call(call: &Invocation) -> (reply: Result<Vec<u8>, HostFailure>) {
    wapc_guest::host_call(&call.binding, &call.capability_id, &call.operation, &call.payload)
}

/// What a reply means for an operation that returns nothing: any payload is an
/// acknowledgement, and a failure of the call is a transport failure.
pub open spec fn spec_acknowledged(reply: Result<Seq<u8>, HostFailure>) -> Result<(), ErrorView> {
    match reply {
        Ok(_) => Ok(()),
        Err(e) => Err(ErrorView::WapcError(e)),
    }
}

/// Reads the reply to an operation that returns nothing.
pub fn acknowledged(reply: Result<Vec<u8>, HostFailure>) -> (r: Result<(), Error>)
    ensures
        outcome(r) == spec_acknowledged(answer(reply)),
{
    match reply {
        Ok(_) => Ok(()),
        Err(e) => Err(crate::errors::new(ErrorKind::WapcError(e))),
    }
}

/// What a reply means for an operation that returns the payload as it is.
pub open spec fn spec_payload(reply: Result<Seq<u8>, HostFailure>) -> Result<Seq<u8>, ErrorView> {
    match reply {
        Ok(bytes) => Ok(bytes),
        Err(e) => Err(ErrorView::WapcError(e)),
    }
}

/// Reads the reply to an operation that returns the payload as it is.
pub fn payload(reply: Result<Vec<u8>, HostFailure>) -> (r: Result<Vec<u8>, Error>)
    ensures
        outcome(r) == spec_payload(answer(reply)),
{
    match reply {
        Ok(bytes) => {
            assert(bytes.deep_view() =~= bytes@);
            Ok(bytes)
        },
        Err(e) => Err(crate::errors::new(ErrorKind::WapcError(e))),
    }
}

} // verus!
