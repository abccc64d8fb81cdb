//! The client for capabilities that have no typed client: the payload goes out as it
//! is, and the reply comes back as it is.

use crate::errors::{Error, ErrorView};
use crate::transport::{
    answer, host_call, outcome, payload, spec_payload, Invocation, InvocationView,
};
use crate::wire::DEFAULT_BINDING;
use crate::RawCapability;
use vstd::prelude::*;
use vstd::slice::slice_to_vec;
use wapc_guest::errors::Error as HostFailure;

verus! {

/// A client of one provider instance of any capability.
pub struct RawCapabilityHostBinding {
    binding: String,
}

impl View for RawCapabilityHostBinding {
    type V = Seq<char>;

    /// The name of the provider instance that the client addresses.
    closed spec fn view(&self) -> Seq<char> {
        self.binding@
    }
}

/// Creates an untyped client that addresses the provider instance `binding`.
pub fn host(binding: &str) -> (r: RawCapabilityHostBinding)
    ensures
        r@ == binding@,
{
    RawCapabilityHostBinding { binding: binding.to_string() }
}

/// Creates an untyped client that addresses the provider instance named `default`.
pub fn default() -> (r: RawCapabilityHostBinding)
    ensures
        r@ == DEFAULT_BINDING@,
{
    RawCapabilityHostBinding { binding: DEFAULT_BINDING.to_string() }
}

impl RawCapabilityHostBinding {
    /// The request of `call`: the four parts as they were given.
    pub fn call_request(&self, capid: &str, operation: &str, msg: &[u8]) -> (call: Invocation)
        ensures
            call@ == (InvocationView {
                binding: self@,
                capability_id: capid@,
                operation: operation@,
                payload: msg@,
            }),
    {
        Invocation {
            binding: self.binding.clone(),
            capability_id: capid.to_string(),
            operation: operation.to_string(),
            payload: slice_to_vec(msg),
        }
    }
}

impl RawCapability for RawCapabilityHostBinding {
    /// Sends a payload to an operation of a capability and returns the reply's payload.
    fn call(&self, capid: &str, operation: &str, msg: &[u8]) -> (r: Result<Vec<u8>, Error>)
        ensures
            exists|reply: Result<Seq<u8>, HostFailure>| outcome(r) == spec_payload(reply),
    {
        let call = self.call_request(capid, operation, msg);
        let reply = host_call(&call);
        let ghost heard = answer(reply);
        let r = payload(reply);
        assert(outcome(r) == spec_payload(heard));
        r
    }
}

} // verus!
