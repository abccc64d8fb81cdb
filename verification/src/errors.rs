//! The single error type that every facade and the dispatch table report through.
//!
//! An [`Error`] owns one [`ErrorKind`]. Kinds that originate in a collaborator keep the
//! collaborator's own error value as the cause; the others carry a message.

use serde_json::Error as JsonFailure;
use std::str::Utf8Error;
use std::string::FromUtf8Error;
use vstd::prelude::*;
use vstd::std_specs::convert::{FromSpec, FromSpecImpl};
use wapc_guest::errors::Error as HostFailure;

verus! {

/// The error of the foreign-call primitive, `wapc_guest::errors::Error`. Nothing is known
/// of a value of it but its identity.
#[verifier::external_type_specification]
#[verifier::external_body]
pub struct ExHostFailure(HostFailure);

/// `serde_json::Error`, kept as the cause of a JSON failure.
#[verifier::external_type_specification]
#[verifier::external_body]
pub struct ExJsonFailure(JsonFailure);

/// `std::str::Utf8Error`, kept as the cause of a failed borrow of bytes as text.
#[verifier::external_type_specification]
#[verifier::external_body]
pub struct ExUtf8Error(Utf8Error);

/// `std::string::FromUtf8Error`, kept as the cause of a failed conversion of bytes to text.
#[verifier::external_type_specification]
#[verifier::external_body]
pub struct ExFromUtf8Error(FromUtf8Error);

/// What went wrong.
#[derive(Debug)]
pub enum ErrorKind {
    /// A key-value request or reply that the wire format cannot carry.
    KeyValueError(String),
    /// A messaging request that the wire format cannot carry.
    MessagingError(String),
    /// An uncategorized failure of collaborator code, by its message.
    MiscError(String),
    /// A configuration value that the environment does not supply, by its message.
    EnvVar(String),
    /// Bytes that are not UTF-8, met while taking ownership of them as text.
    UTF8(FromUtf8Error),
    /// Bytes that are not UTF-8, met while borrowing them as text.
    UTF8Str(Utf8Error),
    /// A JSON document that could not be written or read.
    JsonMarshaling(JsonFailure),
    /// A request that could not be encoded or a reply that could not be decoded, by the
    /// codec's message.
    Serialization(String),
    /// A failure that the host reported in words.
    HostError(String),
    /// An inbound operation that no handler is registered for, by its name.
    BadDispatch(String),
    /// The foreign call was rejected or the host answered it with an error.
    WapcError(HostFailure),
}

/// The mathematical value of an [`ErrorKind`]: text as sequences of characters, causes as
/// they are.
pub enum ErrorView {
    KeyValueError(Seq<char>),
    MessagingError(Seq<char>),
    MiscError(Seq<char>),
    EnvVar(Seq<char>),
    UTF8(FromUtf8Error),
    UTF8Str(Utf8Error),
    JsonMarshaling(JsonFailure),
    Serialization(Seq<char>),
    HostError(Seq<char>),
    BadDispatch(Seq<char>),
    WapcError(HostFailure),
}

impl ErrorView {
    /// The failure came from the transport: the foreign call itself or the host behind it.
    pub open spec fn is_transport(self) -> bool {
        self is WapcError || self is HostError
    }

    /// The failure came from encoding a request or decoding a reply.
    pub open spec fn is_serialization(self) -> bool {
        self is Serialization || self is JsonMarshaling
    }

    /// The fixed one-line description of the kind.
    pub open spec fn description(self) -> Seq<char> {
        match self {
            ErrorView::KeyValueError(_) => "Key/value store error"@,
            ErrorView::UTF8(_) => "UTF8 encoding failure"@,
            ErrorView::MessagingError(_) => "Messaging error"@,
            ErrorView::EnvVar(_) => "Environment variable error"@,
            ErrorView::JsonMarshaling(_) => "JSON encoding/decoding failure"@,
            ErrorView::Serialization(_) => "Message encoding/decoding failure"@,
            ErrorView::UTF8Str(_) => "UTF8 encoding failure"@,
            ErrorView::HostError(_) => "Host Error"@,
            ErrorView::BadDispatch(_) => "Bad dispatch"@,
            ErrorView::WapcError(_) => "waPC failure"@,
            ErrorView::MiscError(_) => "Misc error"@,
        }
    }

    /// The words that the full message of the kind starts with.
    pub open spec fn message_prefix(self) -> Seq<char> {
        match self {
            ErrorView::KeyValueError(_) => "Key/Value error: "@,
            ErrorView::UTF8(_) => "UTF8 encoding error: "@,
            ErrorView::MessagingError(_) => "Messaging error: "@,
            ErrorView::EnvVar(_) => "Environment variable error: "@,
            ErrorView::JsonMarshaling(_) => "JSON marshaling error: "@,
            ErrorView::Serialization(_) => "Serialization error: "@,
            ErrorView::UTF8Str(_) => "UTF8 error: "@,
            ErrorView::HostError(_) => "Host error: "@,
            ErrorView::BadDispatch(_) => "Bad dispatch, attempted operation: "@,
            ErrorView::WapcError(_) => "waPC error: "@,
            ErrorView::MiscError(_) => "Misc error: "@,
        }
    }

    /// The text that the kind carries, where it carries text rather than a cause.
    pub open spec fn detail(self) -> Option<Seq<char>> {
        match self {
            ErrorView::KeyValueError(m) => Some(m),
            ErrorView::MessagingError(m) => Some(m),
            ErrorView::MiscError(m) => Some(m),
            ErrorView::EnvVar(m) => Some(m),
            ErrorView::Serialization(m) => Some(m),
            ErrorView::HostError(m) => Some(m),
            ErrorView::BadDispatch(m) => Some(m),
            ErrorView::UTF8(_) => None,
            ErrorView::UTF8Str(_) => None,
            ErrorView::JsonMarshaling(_) => None,
            ErrorView::WapcError(_) => None,
        }
    }
}

impl View for ErrorKind {
    type V = ErrorView;

    open spec fn view(&self) -> ErrorView {
        match self {
            ErrorKind::KeyValueError(m) => ErrorView::KeyValueError(m@),
            ErrorKind::MessagingError(m) => ErrorView::MessagingError(m@),
            ErrorKind::MiscError(m) => ErrorView::MiscError(m@),
            ErrorKind::EnvVar(m) => ErrorView::EnvVar(m@),
            ErrorKind::UTF8(e) => ErrorView::UTF8(*e),
            ErrorKind::UTF8Str(e) => ErrorView::UTF8Str(*e),
            ErrorKind::JsonMarshaling(e) => ErrorView::JsonMarshaling(*e),
            ErrorKind::Serialization(m) => ErrorView::Serialization(m@),
            ErrorKind::HostError(m) => ErrorView::HostError(m@),
            ErrorKind::BadDispatch(m) => ErrorView::BadDispatch(m@),
            ErrorKind::WapcError(e) => ErrorView::WapcError(*e),
        }
    }
}

/// What a kind wraps, borrowed from it: the collaborator's own error, or, for a failure
/// of the environment, the words that were kept of it.
pub enum Cause<'a> {
    Utf8(&'a FromUtf8Error),
    Utf8Str(&'a Utf8Error),
    Json(&'a JsonFailure),
    Wapc(&'a HostFailure),
    Env(&'a String),
}

/// One failure of the dispatch layer.
#[derive(Debug)]
pub struct Error(Box<ErrorKind>);

/// Makes the error of the given kind.
pub fn new(kind: ErrorKind) -> (e: Error)
    ensures
        e.spec_kind() == kind,
        e == Error::of(kind),
{
    Error(Box::new(kind))
}

impl View for Error {
    type V = ErrorView;

    open spec fn view(&self) -> ErrorView {
        self.spec_kind()@
    }
}

impl DeepView for Error {
    type V = ErrorView;

    open spec fn deep_view(&self) -> ErrorView {
        self@
    }
}

impl Error {
    /// The kind that the error owns.
    pub closed spec fn spec_kind(&self) -> ErrorKind {
        *self.0
    }

    /// The error that owns `kind`.
    pub closed spec fn of(kind: ErrorKind) -> Error {
        Error(Box::new(kind))
    }

    /// The error that owns a kind is of that kind.
    pub proof fn lemma_of_kind(kind: ErrorKind)
        ensures
            Error::of(kind).spec_kind() == kind,
    {
    }

    /// The kind of the error.
    pub fn kind(&self) -> (k: &ErrorKind)
        ensures
            *k == self.spec_kind(),
    {
        &self.0
    }

    /// Gives up the error for its kind.
    pub fn into_kind(self) -> (k: ErrorKind)
        ensures
            k == self.spec_kind(),
    {
        *self.0
    }

    /// The fixed one-line description of the error's kind.
    pub fn description(&self) -> (r: &'static str)
        ensures
            r@ == self@.description(),
    {
        match *self.0 {
            ErrorKind::KeyValueError(_) => "Key/value store error",
            ErrorKind::UTF8(_) => "UTF8 encoding failure",
            ErrorKind::MessagingError(_) => "Messaging error",
            ErrorKind::EnvVar(_) => "Environment variable error",
            ErrorKind::JsonMarshaling(_) => "JSON encoding/decoding failure",
            ErrorKind::Serialization(_) => "Message encoding/decoding failure",
            ErrorKind::UTF8Str(_) => "UTF8 encoding failure",
            ErrorKind::HostError(_) => "Host Error",
            ErrorKind::BadDispatch(_) => "Bad dispatch",
            ErrorKind::WapcError(_) => "waPC failure",
            ErrorKind::MiscError(_) => "Misc error",
        }
    }

    /// What stands behind this error, for the kinds that wrap a cause: the two UTF-8
    /// kinds, the environment kind, the JSON kind and the waPC kind. The other kinds
    /// stand for themselves and have none.
    pub fn cause(&self) -> (r: Option<Cause<'_>>)
        ensures
            r == Error::spec_cause(&self.spec_kind()),
    {
        match &*self.0 {
            ErrorKind::KeyValueError(_) => None,
            ErrorKind::UTF8(e) => Some(Cause::Utf8(e)),
            ErrorKind::MessagingError(_) => None,
            ErrorKind::EnvVar(words) => Some(Cause::Env(words)),
            ErrorKind::JsonMarshaling(e) => Some(Cause::Json(e)),
            ErrorKind::Serialization(_) => None,
            ErrorKind::UTF8Str(e) => Some(Cause::Utf8Str(e)),
            ErrorKind::HostError(_) => None,
            ErrorKind::BadDispatch(_) => None,
            ErrorKind::WapcError(e) => Some(Cause::Wapc(e)),
            ErrorKind::MiscError(_) => None,
        }
    }

    /// Which cause a kind wraps.
    pub open spec fn spec_cause(kind: &ErrorKind) -> Option<Cause<'_>> {
        match kind {
            ErrorKind::UTF8(e) => Some(Cause::Utf8(e)),
            ErrorKind::EnvVar(words) => Some(Cause::Env(words)),
            ErrorKind::JsonMarshaling(e) => Some(Cause::Json(e)),
            ErrorKind::UTF8Str(e) => Some(Cause::Utf8Str(e)),
            ErrorKind::WapcError(e) => Some(Cause::Wapc(e)),
            ErrorKind::KeyValueError(_) => None,
            ErrorKind::MessagingError(_) => None,
            ErrorKind::Serialization(_) => None,
            ErrorKind::HostError(_) => None,
            ErrorKind::BadDispatch(_) => None,
            ErrorKind::MiscError(_) => None,
        }
    }

    /// The full message: the words of the kind, then what the error carries. Where it
    /// carries text, the message ends with that text; where it wraps a cause, with the
    /// cause's own words.
    pub fn message(&self) -> (r: String)
        ensures
            self@.message_prefix().is_prefix_of(r@),
            self@.detail() matches Some(m) ==> r@ == self@.message_prefix() + m,
    {
        match &*self.0 {
            ErrorKind::KeyValueError(m) => join("Key/Value error: ", m.as_str()),
            ErrorKind::UTF8(e) => join("UTF8 encoding error: ", from_utf8_error_text(e).as_str()),
            ErrorKind::MessagingError(m) => join("Messaging error: ", m.as_str()),
            ErrorKind::EnvVar(m) => join("Environment variable error: ", m.as_str()),
            ErrorKind::JsonMarshaling(e) => join(
                "JSON marshaling error: ",
                json_failure_text(e).as_str(),
            ),
            ErrorKind::Serialization(m) => join("Serialization error: ", m.as_str()),
            ErrorKind::UTF8Str(e) => join("UTF8 error: ", utf8_error_text(e).as_str()),
            ErrorKind::HostError(m) => join("Host error: ", m.as_str()),
            ErrorKind::BadDispatch(m) => join("Bad dispatch, attempted operation: ", m.as_str()),
            ErrorKind::WapcError(e) => join("waPC error: ", host_failure_text(e).as_str()),
            ErrorKind::MiscError(m) => join("Misc error: ", m.as_str()),
        }
    }
}

/// `head` followed by `tail`.
fn join(head: &str, tail: &str) -> (r: String)
    ensures
        r@ == head@ + tail@,
        head@.is_prefix_of(r@),
{
    let mut s = head.to_string();
    s.append(tail);
    s
}

/// The words of a foreign-call error, as its `Display` impl in `wapc_guest` writes them.
/// Nothing is claimed of them.
#[verifier::external_body]
fn host_failure_text(e: &HostFailure) -> (r: String) {
    format!("{}", e)
}

/// The words of a `serde_json::Error`, as its `Display` impl writes them. Nothing is
/// claimed of them.
#[verifier::external_body]
fn json_failure_text(e: &JsonFailure) -> (r: String) {
    format!("{}", e)
}

/// The words of a `std::str::Utf8Error`, as its `Display` impl writes them. Nothing is
/// claimed of them.
#[verifier::external_body]
fn utf8_error_text(e: &Utf8Error) -> (r: String) {
    format!("{}", e)
}

/// The words of a `std::string::FromUtf8Error`, as its `Display` impl writes them. Nothing
/// is claimed of them.
#[verifier::external_body]
fn from_utf8_error_text(e: &FromUtf8Error) -> (r: String) {
    format!("{}", e)
}

impl From<HostFailure> for Error {
    fn from(source: HostFailure) -> (e: Error)
        ensures
            e.spec_kind() == ErrorKind::WapcError(source),
    {
        new(ErrorKind::WapcError(source))
    }
}

impl FromSpecImpl<HostFailure> for Error {
    open spec fn obeys_from_spec() -> bool {
        true
    }

    open spec fn from_spec(source: HostFailure) -> Error {
        Error::of(ErrorKind::WapcError(source))
    }
}

impl From<Utf8Error> for Error {
    fn from(source: Utf8Error) -> (e: Error)
        ensures
            e.spec_kind() == ErrorKind::UTF8Str(source),
    {
        new(ErrorKind::UTF8Str(source))
    }
}

impl FromSpecImpl<Utf8Error> for Error {
    open spec fn obeys_from_spec() -> bool {
        true
    }

    open spec fn from_spec(source: Utf8Error) -> Error {
        Error::of(ErrorKind::UTF8Str(source))
    }
}

impl From<JsonFailure> for Error {
    fn from(source: JsonFailure) -> (e: Error)
        ensures
            e.spec_kind() == ErrorKind::JsonMarshaling(source),
    {
        new(ErrorKind::JsonMarshaling(source))
    }
}

impl FromSpecImpl<JsonFailure> for Error {
    open spec fn obeys_from_spec() -> bool {
        true
    }

    open spec fn from_spec(source: JsonFailure) -> Error {
        Error::of(ErrorKind::JsonMarshaling(source))
    }
}

impl From<FromUtf8Error> for Error {
    fn from(source: FromUtf8Error) -> (e: Error)
        ensures
            e.spec_kind() == ErrorKind::UTF8(source),
    {
        new(ErrorKind::UTF8(source))
    }
}

impl FromSpecImpl<FromUtf8Error> for Error {
    open spec fn obeys_from_spec() -> bool {
        true
    }

    open spec fn from_spec(source: FromUtf8Error) -> Error {
        Error::of(ErrorKind::UTF8(source))
    }
}

/// Each conversion keeps its source and files it under the kind of its origin. A failure
/// of the foreign call becomes a transport failure, a JSON failure a serialization
/// failure, and the two never share a kind. Bytes that are not UTF-8 become one of the
/// two UTF-8 kinds, which are neither of the former.
pub proof fn lemma_conversions_keep_kinds_apart(
    host: HostFailure,
    json: JsonFailure,
    borrowed: Utf8Error,
    owned: FromUtf8Error,
)
    ensures
        <Error as FromSpec<HostFailure>>::from_spec(host)@ == ErrorView::WapcError(host),
        <Error as FromSpec<JsonFailure>>::from_spec(json)@ == ErrorView::JsonMarshaling(json),
        <Error as FromSpec<Utf8Error>>::from_spec(borrowed)@ == ErrorView::UTF8Str(borrowed),
        <Error as FromSpec<FromUtf8Error>>::from_spec(owned)@ == ErrorView::UTF8(owned),
        ErrorView::WapcError(host).is_transport() && !ErrorView::WapcError(
            host,
        ).is_serialization(),
        ErrorView::JsonMarshaling(json).is_serialization() && !ErrorView::JsonMarshaling(
            json,
        ).is_transport(),
        !ErrorView::UTF8Str(borrowed).is_transport() && !ErrorView::UTF8Str(
            borrowed,
        ).is_serialization(),
        !ErrorView::UTF8(owned).is_transport() && !ErrorView::UTF8(owned).is_serialization(),
{
    Error::lemma_of_kind(ErrorKind::WapcError(host));
    Error::lemma_of_kind(ErrorKind::JsonMarshaling(json));
    Error::lemma_of_kind(ErrorKind::UTF8Str(borrowed));
    Error::lemma_of_kind(ErrorKind::UTF8(owned));
}

} // verus!
