//! The client of the logging capability.
//!
//! Logging has one destination at a time. An [`AutomaticLoggerHostBinding`] is that
//! destination: the name of the provider instance that log entries go to. It starts as
//! the default one, and [`host`] and [`default`] switch it: every entry written
//! afterwards goes to the new instance and to no other. A switch hands out no client of
//! its own, so two destinations cannot be kept side by side; a caller that wants two
//! switches between them.

use crate::codec;
use crate::errors::{Error, ErrorView};
use crate::transport::{
    acknowledged, answer, host_call, outcome, prepare, round_trip, spec_acknowledged,
    spec_prepare, Invocation, InvocationView,
};
use crate::wire::{encoding, Message, CAPID_LOGGING, DEFAULT_BINDING};
use vstd::prelude::*;
use wapc_guest::errors::Error as HostFailure;

verus! {

/// The operation that writes one log entry.
pub const OP_LOG: &'static str = "WriteLog";

/// The level of an entry that reports an error.
pub const ERROR: u32 = 1;

/// The level of an entry that warns.
pub const WARN: u32 = 2;

/// The level of an entry that informs.
pub const INFO: u32 = 3;

/// The level of an entry for debugging.
pub const DEBUG: u32 = 4;

/// The level of an entry that traces the flow.
pub const TRACE: u32 = 5;

/// The destination of log entries that is active now.
pub struct AutomaticLoggerHostBinding {
    binding: String,
}

impl View for AutomaticLoggerHostBinding {
    type V = Seq<char>;

    /// The name of the provider instance that entries go to.
    closed spec fn view(&self) -> Seq<char> {
        self.binding@
    }
}

/// Switches the destination of all entries that are written through `active` from now
/// on to the provider instance `binding`, whatever the destination was before.
pub fn host(active: &mut AutomaticLoggerHostBinding, binding: &str)
    ensures
        final(active)@ == spec_switch(old(active)@, binding@),
{
    active.set_binding(binding);
}

/// Switches the destination of all entries that are written through `active` from now
/// on back to the provider instance named `default`.
pub fn default(active: &mut AutomaticLoggerHostBinding)
    ensures
        final(active)@ == spec_switch(old(active)@, DEFAULT_BINDING@),
{
    active.set_binding(DEFAULT_BINDING);
}

/// The request that writes an entry of the given level and body to the logging provider
/// behind `binding`.
pub open spec fn spec_log_request(binding: Seq<char>, level: u32, body: Seq<char>) -> Result<
    InvocationView,
    ErrorView,
> {
    spec_prepare(
        binding,
        CAPID_LOGGING@,
        OP_LOG@,
        encoding(Message::WriteLogRequest { level, body }),
    )
}

/// The destination after a switch: the one that was asked for, whatever was active.
pub open spec fn spec_switch(active: Seq<char>, binding: Seq<char>) -> Seq<char> {
    binding
}

/// An entry that is written after one switch is addressed to the destination of that
/// switch. An entry that is written after a second switch is addressed to the destination
/// of the second, and to that of the first only if the two are the same.
pub proof fn lemma_entries_follow_last_switch(
    start: Seq<char>,
    first: Seq<char>,
    second: Seq<char>,
    level: u32,
    body: Seq<char>,
)
    ensures
        spec_log_request(spec_switch(start, first), level, body) matches Ok(call)
            ==> call.binding == first,
        spec_log_request(spec_switch(spec_switch(start, first), second), level, body) matches Ok(
            call,
        ) ==> call.binding == second && (call.binding == first <==> first == second),
{
}

impl Default for AutomaticLoggerHostBinding {
    /// The destination that logging starts with: the provider instance named `default`.
    fn default() -> (r: Self)
        ensures
            r@ == DEFAULT_BINDING@,
    {
        AutomaticLoggerHostBinding { binding: DEFAULT_BINDING.to_string() }
    }
}

impl AutomaticLoggerHostBinding {
    /// Switches the destination: from now on entries go to the provider instance
    /// `binding`, whatever the destination was before.
    pub fn set_binding(&mut self, binding: &str)
        ensures
            final(self)@ == spec_switch(old(self)@, binding@),
    {
        self.binding = binding.to_string();
    }

    /// The name of the provider instance that entries go to.
    pub fn binding(&self) -> (r: &str)
        ensures
            r@ == self@,
    {
        self.binding.as_str()
    }

    /// The request of [`Self::log`]: addressed to the active destination.
    pub fn log_request(&self, level: u32, body: &str) -> (r: Result<Invocation, Error>)
        ensures
            outcome(r) == spec_log_request(self@, level, body@),
    {
        prepare(self.binding.as_str(), CAPID_LOGGING, OP_LOG, codec::encode_write_log(level, body))
    }

    /// Writes a log entry on the host, at the active destination. An entry that cannot be
    /// encoded is not sent. An entry that the host turns down, or that does not reach it,
    /// is a transport failure like that of any other call.
    pub fn log(&self, level: u32, body: &str) -> (r: Result<(), Error>)
        ensures
            round_trip(
                spec_log_request(self@, level, body@),
                |reply: Result<Seq<u8>, HostFailure>| spec_acknowledged(reply),
                outcome(r),
            ),
    {
        match self.log_request(level, body) {
            Err(e) => Err(e),
            Ok(call) => {
                let reply = host_call(&call);
                let ghost heard = answer(reply);
                let r = acknowledged(reply);
                assert(outcome(r) == (|reply: Result<Seq<u8>, HostFailure>|
                    spec_acknowledged(reply))(heard));
                r
            },
        }
    }

    /// Writes a log entry at the error level.
    pub fn error(&self, body: &str) -> (r: Result<(), Error>)
        ensures
            round_trip(
                spec_log_request(self@, ERROR, body@),
                |reply: Result<Seq<u8>, HostFailure>| spec_acknowledged(reply),
                outcome(r),
            ),
    {
        self.log(ERROR, body)
    }

    /// Writes a log entry at the warn level.
    pub fn warn(&self, body: &str) -> (r: Result<(), Error>)
        ensures
            round_trip(
                spec_log_request(self@, WARN, body@),
                |reply: Result<Seq<u8>, HostFailure>| spec_acknowledged(reply),
                outcome(r),
            ),
    {
        self.log(WARN, body)
    }

    /// Writes a log entry at the info level.
    pub fn info(&self, body: &str) -> (r: Result<(), Error>)
        ensures
            round_trip(
                spec_log_request(self@, INFO, body@),
                |reply: Result<Seq<u8>, HostFailure>| spec_acknowledged(reply),
                outcome(r),
            ),
    {
        self.log(INFO, body)
    }

    /// Writes a log entry at the debug level.
    pub fn debug(&self, body: &str) -> (r: Result<(), Error>)
        ensures
            round_trip(
                spec_log_request(self@, DEBUG, body@),
                |reply: Result<Seq<u8>, HostFailure>| spec_acknowledged(reply),
                outcome(r),
            ),
    {
        self.log(DEBUG, body)
    }

    /// Writes a log entry at the trace level.
    pub fn trace(&self, body: &str) -> (r: Result<(), Error>)
        ensures
            round_trip(
                spec_log_request(self@, TRACE, body@),
                |reply: Result<Seq<u8>, HostFailure>| spec_acknowledged(reply),
                outcome(r),
            ),
    {
        self.log(TRACE, body)
    }
}

} // verus!
