//! Error model of the bindings: the protocol faults that the runtime reports,
//! the Python exception classes that the bindings raise, and the mapping
//! between the two.
use vstd::prelude::*;
use vstd::string::*;

verus! {

/// Identity errors of the actor framework (`ActrError`), held as plain values.
#[derive(Debug)]
pub enum ActrFault {
    InvalidFormat(String),
    InvalidComponent(String),
    InvalidTypeFormat(String),
    DecodeFailure { message: String },
    UnknownRoute { route_key: String },
    GateNotInitialized { message: String },
    NotImplemented { feature: String },
    PermissionDenied { message: String },
    DependencyNotFound { service_name: String, message: String },
}

/// Protocol errors of the actor framework (`ProtocolError`), held as plain values.
///
/// `Uri` and `Name` carry the rendered text of the nested URI or name error.
#[derive(Debug)]
pub enum ProtocolFault {
    Actr(ActrFault),
    Uri(String),
    Name(String),
    SerializationError(String),
    DeserializationError(String),
    DecodeError(String),
    EncodeError(String),
    UnknownRoute(String),
    TransportError(String),
    Timeout,
    TargetNotFound(String),
    TargetUnavailable(String),
    InvalidStateTransition(String),
}

/// The Python exception classes that the bindings raise.
///
/// `ValueError` and `RuntimeError` are Python's own; the `Actr*` classes are the
/// module's exceptions, all of which derive from `ActrRuntimeError`.
#[derive(Clone, Copy, Debug, PartialEq, Eq, Structural)]
pub enum PyErrorClass {
    ValueError,
    RuntimeError,
    ActrRuntimeError,
    ActrTransportError,
    ActrDecodeError,
    ActrUnknownRoute,
    ActrGateNotInitialized,
}

/// A Python exception to raise: its class and its message.
#[derive(Debug)]
pub struct BindingError {
    pub class: PyErrorClass,
    pub message: String,
}

/// The classes that `except ActrRuntimeError` catches.
pub open spec fn is_actr_runtime_error(c: PyErrorClass) -> bool {
    match c {
        PyErrorClass::ValueError | PyErrorClass::RuntimeError => false,
        _ => true,
    }
}

/// The rendered text of an identity error.
pub open spec fn actr_fault_text(f: ActrFault) -> Seq<char> {
    match f {
        ActrFault::InvalidFormat(s) => "Invalid Actor ID format: '"@ + s@
            + "'. Expected format: <serial_number>@<realm_id>:<manufacturer>+<name>"@,
        ActrFault::InvalidComponent(s) => "Invalid component in actor identity: "@ + s@,
        ActrFault::InvalidTypeFormat(s) => "Invalid actor type format: '"@ + s@
            + "'. Expected format: <manufacturer>+<name>"@,
        ActrFault::DecodeFailure { message } => "Failed to decode protobuf message: "@ + message@,
        ActrFault::UnknownRoute { route_key } => "Unknown route key: "@ + route_key@,
        ActrFault::GateNotInitialized { message } => "Gate not initialized: "@ + message@,
        ActrFault::NotImplemented { feature } => "Feature not yet implemented: "@ + feature@,
        ActrFault::PermissionDenied { message } => "Permission denied: "@ + message@,
        ActrFault::DependencyNotFound { service_name, message } => "Dependency '"@ + service_name@
            + "' not found: "@ + message@,
    }
}

/// The rendered text of a protocol error.
pub open spec fn protocol_fault_text(f: ProtocolFault) -> Seq<char> {
    match f {
        ProtocolFault::Actr(a) => "Actor identity error: "@ + actr_fault_text(a),
        ProtocolFault::Uri(s) => "URI parsing error: "@ + s@,
        ProtocolFault::Name(s) => "Invalid name: "@ + s@,
        ProtocolFault::SerializationError(s) => "Serialization error: "@ + s@,
        ProtocolFault::DeserializationError(s) => "Deserialization error: "@ + s@,
        ProtocolFault::DecodeError(s) => "Decode error: "@ + s@,
        ProtocolFault::EncodeError(s) => "Encode error: "@ + s@,
        ProtocolFault::UnknownRoute(s) => "Unknown route: "@ + s@,
        ProtocolFault::TransportError(s) => "Transport error: "@ + s@,
        ProtocolFault::Timeout => "Timeout"@,
        ProtocolFault::TargetNotFound(s) => "Target not found: "@ + s@,
        ProtocolFault::TargetUnavailable(s) => "Target unavailable: "@ + s@,
        ProtocolFault::InvalidStateTransition(s) => "Invalid state transition: "@ + s@,
    }
}

/// The exception class that a protocol error is raised as.
pub open spec fn protocol_fault_class(f: ProtocolFault) -> PyErrorClass {
    match f {
        ProtocolFault::TransportError(_) => PyErrorClass::ActrTransportError,
        ProtocolFault::DecodeError(_)
        | ProtocolFault::DeserializationError(_)
        | ProtocolFault::EncodeError(_) => PyErrorClass::ActrDecodeError,
        ProtocolFault::UnknownRoute(_) => PyErrorClass::ActrUnknownRoute,
        ProtocolFault::Actr(ActrFault::UnknownRoute { .. }) => PyErrorClass::ActrUnknownRoute,
        ProtocolFault::Actr(ActrFault::GateNotInitialized { .. }) => PyErrorClass::ActrGateNotInitialized,
        _ => PyErrorClass::ActrRuntimeError,
    }
}

/// The message of the exception that a protocol error is raised as: the bare
/// detail for the errors with a class of their own, the rendered text otherwise.
pub open spec fn protocol_fault_message(f: ProtocolFault) -> Seq<char> {
    match f {
        ProtocolFault::TransportError(s) => s@,
        ProtocolFault::DecodeError(s) => s@,
        ProtocolFault::DeserializationError(s) => s@,
        ProtocolFault::EncodeError(s) => s@,
        ProtocolFault::UnknownRoute(s) => s@,
        ProtocolFault::Actr(ActrFault::UnknownRoute { route_key }) => route_key@,
        ProtocolFault::Actr(ActrFault::GateNotInitialized { message }) => message@,
        _ => protocol_fault_text(f),
    }
}

/// Concatenates three pieces of text.
fn join3(a: &str, b: &str, c: &str) -> (r: String)
    ensures
        r@ == a@ + b@ + c@,
{
    let mut r = String::from_str(a);
    r.append(b);
    r.append(c);
    r
}

/// Concatenates two pieces of text.
pub fn join2(a: &str, b: &str) -> (r: String)
    ensures
        r@ == a@ + b@,
{
    let mut r = String::from_str(a);
    r.append(b);
    r
}

impl ActrFault {
    /// Renders the identity error as the framework displays it.
    pub fn text(&self) -> (r: String)
        ensures
            r@ == actr_fault_text(*self),
    {
        match self {
            ActrFault::InvalidFormat(s) => join3(
                "Invalid Actor ID format: '",
                s.as_str(),
                "'. Expected format: <serial_number>@<realm_id>:<manufacturer>+<name>",
            ),
            ActrFault::InvalidComponent(s) => join2(
                "Invalid component in actor identity: ",
                s.as_str(),
            ),
            ActrFault::InvalidTypeFormat(s) => join3(
                "Invalid actor type format: '",
                s.as_str(),
                "'. Expected format: <manufacturer>+<name>",
            ),
            ActrFault::DecodeFailure { message } => join2(
                "Failed to decode protobuf message: ",
                message.as_str(),
            ),
            ActrFault::UnknownRoute { route_key } => join2("Unknown route key: ", route_key.as_str()),
            ActrFault::GateNotInitialized { message } => join2(
                "Gate not initialized: ",
                message.as_str(),
            ),
            ActrFault::NotImplemented { feature } => join2(
                "Feature not yet implemented: ",
                feature.as_str(),
            ),
            ActrFault::PermissionDenied { message } => join2("Permission denied: ", message.as_str()),
            ActrFault::DependencyNotFound { service_name, message } => {
                let mut r = join3("Dependency '", service_name.as_str(), "' not found: ");
                r.append(message.as_str());
                r
            },
        }
    }
}

impl ProtocolFault {
    /// Renders the protocol error as the framework displays it.
    pub fn text(&self) -> (r: String)
        ensures
            r@ == protocol_fault_text(*self),
    {
        match self {
            ProtocolFault::Actr(a) => {
                let inner = a.text();
                join2("Actor identity error: ", inner.as_str())
            },
            ProtocolFault::Uri(s) => join2("URI parsing error: ", s.as_str()),
            ProtocolFault::Name(s) => join2("Invalid name: ", s.as_str()),
            ProtocolFault::SerializationError(s) => join2("Serialization error: ", s.as_str()),
            ProtocolFault::DeserializationError(s) => join2("Deserialization error: ", s.as_str()),
            ProtocolFault::DecodeError(s) => join2("Decode error: ", s.as_str()),
            ProtocolFault::EncodeError(s) => join2("Encode error: ", s.as_str()),
            ProtocolFault::UnknownRoute(s) => join2("Unknown route: ", s.as_str()),
            ProtocolFault::TransportError(s) => join2("Transport error: ", s.as_str()),
            ProtocolFault::Timeout => String::from_str("Timeout"),
            ProtocolFault::TargetNotFound(s) => join2("Target not found: ", s.as_str()),
            ProtocolFault::TargetUnavailable(s) => join2("Target unavailable: ", s.as_str()),
            ProtocolFault::InvalidStateTransition(s) => join2(
                "Invalid state transition: ",
                s.as_str(),
            ),
        }
    }
}

/// Maps a protocol error to the Python exception that the bindings raise for it.
pub fn map_protocol_error(err: ProtocolFault) -> (r: BindingError)
    ensures
        r.class == protocol_fault_class(err),
        r.message@ == protocol_fault_message(err),
        r.class == PyErrorClass::ActrTransportError <==> err is TransportError,
        r.class == PyErrorClass::ActrDecodeError <==> (err is DecodeError || err is DeserializationError
            || err is EncodeError),
        r.class == PyErrorClass::ActrUnknownRoute <==> (err is UnknownRoute || err matches ProtocolFault::Actr(
            ActrFault::UnknownRoute { .. },
        )),
        r.class == PyErrorClass::ActrGateNotInitialized <==> err matches ProtocolFault::Actr(
            ActrFault::GateNotInitialized { .. },
        ),
        has_own_class(err) || r.class == PyErrorClass::ActrRuntimeError,
        is_actr_runtime_error(r.class),
        match err {
            ProtocolFault::TransportError(d) => r.message@ == d@,
            ProtocolFault::DecodeError(d) => r.message@ == d@,
            ProtocolFault::DeserializationError(d) => r.message@ == d@,
            ProtocolFault::EncodeError(d) => r.message@ == d@,
            ProtocolFault::UnknownRoute(d) => r.message@ == d@,
            ProtocolFault::Actr(ActrFault::UnknownRoute { route_key }) => r.message@ == route_key@,
            ProtocolFault::Actr(ActrFault::GateNotInitialized { message }) => r.message@ == message@,
            _ => r.message@ == protocol_fault_text(err),
        },
{
    let class = match &err {
        ProtocolFault::TransportError(_) => PyErrorClass::ActrTransportError,
        ProtocolFault::DecodeError(_)
        | ProtocolFault::DeserializationError(_)
        | ProtocolFault::EncodeError(_) => PyErrorClass::ActrDecodeError,
        ProtocolFault::UnknownRoute(_) => PyErrorClass::ActrUnknownRoute,
        ProtocolFault::Actr(ActrFault::UnknownRoute { .. }) => PyErrorClass::ActrUnknownRoute,
        ProtocolFault::Actr(ActrFault::GateNotInitialized { .. }) => PyErrorClass::ActrGateNotInitialized,
        _ => PyErrorClass::ActrRuntimeError,
    };
    let message = match &err {
        ProtocolFault::TransportError(s) => s.clone(),
        ProtocolFault::DecodeError(s) => s.clone(),
        ProtocolFault::DeserializationError(s) => s.clone(),
        ProtocolFault::EncodeError(s) => s.clone(),
        ProtocolFault::UnknownRoute(s) => s.clone(),
        ProtocolFault::Actr(ActrFault::UnknownRoute { route_key }) => route_key.clone(),
        ProtocolFault::Actr(ActrFault::GateNotInitialized { message }) => message.clone(),
        _ => err.text(),
    };
    BindingError { class, message }
}

/// Every protocol error is raised as a subclass of `ActrRuntimeError`, so one
/// `except ActrRuntimeError` clause catches every failure that the runtime reports.
pub proof fn lemma_protocol_faults_are_actr_runtime_errors(f: ProtocolFault)
    ensures
        is_actr_runtime_error(protocol_fault_class(f)),
{
}

/// The runtime errors that are raised as an exception class of their own:
/// transport errors, the decode family, unknown routes and an uninitialised gate.
pub open spec fn has_own_class(f: ProtocolFault) -> bool {
    ||| f is TransportError
    ||| f is DecodeError
    ||| f is DeserializationError
    ||| f is EncodeError
    ||| f is UnknownRoute
    ||| f matches ProtocolFault::Actr(ActrFault::UnknownRoute { .. })
    ||| f matches ProtocolFault::Actr(ActrFault::GateNotInitialized { .. })
}

/// Each exception class is raised for exactly its own kind of runtime error:
/// transport errors as `ActrTransportError`; decode, deserialization and encode
/// errors as `ActrDecodeError`; unknown routes, at either layer, as
/// `ActrUnknownRoute`; an uninitialised gate as `ActrGateNotInitialized`; and
/// every other error (a missing or unavailable target, a timeout, a serialization
/// error, ...) as `ActrRuntimeError` itself.
pub proof fn lemma_fault_class_by_kind(f: ProtocolFault)
    ensures
        protocol_fault_class(f) == PyErrorClass::ActrTransportError <==> f is TransportError,
        protocol_fault_class(f) == PyErrorClass::ActrDecodeError <==> (f is DecodeError
            || f is DeserializationError || f is EncodeError),
        protocol_fault_class(f) == PyErrorClass::ActrUnknownRoute <==> (f is UnknownRoute
            || f matches ProtocolFault::Actr(ActrFault::UnknownRoute { .. })),
        protocol_fault_class(f) == PyErrorClass::ActrGateNotInitialized <==> f matches ProtocolFault::Actr(
            ActrFault::GateNotInitialized { .. },
        ),
        !has_own_class(f) ==> protocol_fault_class(f) == PyErrorClass::ActrRuntimeError,
        f is TargetNotFound ==> protocol_fault_class(f) == PyErrorClass::ActrRuntimeError,
        f is TargetUnavailable ==> protocol_fault_class(f) == PyErrorClass::ActrRuntimeError,
{
}

/// The text that a detail ends.
pub open spec fn ends_with(text: Seq<char>, tail: Seq<char>) -> bool {
    text.len() >= tail.len() && text.subrange(text.len() - tail.len(), text.len() as int) == tail
}

proof fn lemma_concat_ends_with(a: Seq<char>, b: Seq<char>)
    ensures
        ends_with(a + b, b),
{
    assert((a + b).subrange((a + b).len() - b.len(), (a + b).len() as int) =~= b);
}

proof fn lemma_ends_with_trans(a: Seq<char>, b: Seq<char>, c: Seq<char>)
    requires
        ends_with(a, b),
        ends_with(b, c),
    ensures
        ends_with(a, c),
{
    let x = a.subrange(a.len() - b.len(), a.len() as int);
    assert(a.subrange(a.len() - c.len(), a.len() as int) =~= x.subrange(
        x.len() - c.len(),
        x.len() as int,
    ));
}

/// The rendered text of a runtime error never loses its detail: it ends with the
/// detail the error carries, and an identity error ends with the text of the
/// identity error it wraps.
pub proof fn lemma_fault_text_ends_with_detail(f: ProtocolFault)
    ensures
        match f {
            ProtocolFault::Actr(a) => ends_with(protocol_fault_text(f), actr_fault_text(a)),
            ProtocolFault::Uri(d) => ends_with(protocol_fault_text(f), d@),
            ProtocolFault::Name(d) => ends_with(protocol_fault_text(f), d@),
            ProtocolFault::SerializationError(d) => ends_with(protocol_fault_text(f), d@),
            ProtocolFault::DeserializationError(d) => ends_with(protocol_fault_text(f), d@),
            ProtocolFault::DecodeError(d) => ends_with(protocol_fault_text(f), d@),
            ProtocolFault::EncodeError(d) => ends_with(protocol_fault_text(f), d@),
            ProtocolFault::UnknownRoute(d) => ends_with(protocol_fault_text(f), d@),
            ProtocolFault::TransportError(d) => ends_with(protocol_fault_text(f), d@),
            ProtocolFault::Timeout => true,
            ProtocolFault::TargetNotFound(d) => ends_with(protocol_fault_text(f), d@),
            ProtocolFault::TargetUnavailable(d) => ends_with(protocol_fault_text(f), d@),
            ProtocolFault::InvalidStateTransition(d) => ends_with(protocol_fault_text(f), d@),
        },
        match f {
            ProtocolFault::Actr(ActrFault::InvalidComponent(d)) => ends_with(protocol_fault_text(f), d@),
            ProtocolFault::Actr(ActrFault::DecodeFailure { message }) => ends_with(protocol_fault_text(f), message@),
            ProtocolFault::Actr(ActrFault::UnknownRoute { route_key }) => ends_with(protocol_fault_text(f), route_key@),
            ProtocolFault::Actr(ActrFault::GateNotInitialized { message }) => ends_with(protocol_fault_text(f), message@),
            ProtocolFault::Actr(ActrFault::NotImplemented { feature }) => ends_with(protocol_fault_text(f), feature@),
            ProtocolFault::Actr(ActrFault::PermissionDenied { message }) => ends_with(protocol_fault_text(f), message@),
            ProtocolFault::Actr(ActrFault::DependencyNotFound { message, .. }) => ends_with(protocol_fault_text(f), message@),
            _ => true,
        },
{
    match f {
        ProtocolFault::Actr(a) => {
            lemma_concat_ends_with("Actor identity error: "@, actr_fault_text(a));
            match a {
                ActrFault::InvalidComponent(d) => lemma_concat_ends_with("Invalid component in actor identity: "@, d@),
                ActrFault::DecodeFailure { message } => lemma_concat_ends_with("Failed to decode protobuf message: "@, message@),
                ActrFault::UnknownRoute { route_key } => lemma_concat_ends_with("Unknown route key: "@, route_key@),
                ActrFault::GateNotInitialized { message } => lemma_concat_ends_with("Gate not initialized: "@, message@),
                ActrFault::NotImplemented { feature } => lemma_concat_ends_with("Feature not yet implemented: "@, feature@),
                ActrFault::PermissionDenied { message } => lemma_concat_ends_with("Permission denied: "@, message@),
                ActrFault::DependencyNotFound { service_name, message } => lemma_concat_ends_with(
                    "Dependency '"@ + service_name@ + "' not found: "@,
                    message@,
                ),
                _ => {},
            }
            let t = protocol_fault_text(f);
            let at = actr_fault_text(a);
            match a {
                ActrFault::InvalidComponent(d) => lemma_ends_with_trans(t, at, d@),
                ActrFault::DecodeFailure { message } => lemma_ends_with_trans(t, at, message@),
                ActrFault::UnknownRoute { route_key } => lemma_ends_with_trans(t, at, route_key@),
                ActrFault::GateNotInitialized { message } => lemma_ends_with_trans(t, at, message@),
                ActrFault::NotImplemented { feature } => lemma_ends_with_trans(t, at, feature@),
                ActrFault::PermissionDenied { message } => lemma_ends_with_trans(t, at, message@),
                ActrFault::DependencyNotFound { message, .. } => lemma_ends_with_trans(t, at, message@),
                _ => {},
            }
        },
        ProtocolFault::Uri(d) => lemma_concat_ends_with("URI parsing error: "@, d@),
        ProtocolFault::Name(d) => lemma_concat_ends_with("Invalid name: "@, d@),
        ProtocolFault::SerializationError(d) => lemma_concat_ends_with("Serialization error: "@, d@),
        ProtocolFault::DeserializationError(d) => lemma_concat_ends_with("Deserialization error: "@, d@),
        ProtocolFault::DecodeError(d) => lemma_concat_ends_with("Decode error: "@, d@),
        ProtocolFault::EncodeError(d) => lemma_concat_ends_with("Encode error: "@, d@),
        ProtocolFault::UnknownRoute(d) => lemma_concat_ends_with("Unknown route: "@, d@),
        ProtocolFault::TransportError(d) => lemma_concat_ends_with("Transport error: "@, d@),
        ProtocolFault::Timeout => {},
        ProtocolFault::TargetNotFound(d) => lemma_concat_ends_with("Target not found: "@, d@),
        ProtocolFault::TargetUnavailable(d) => lemma_concat_ends_with("Target unavailable: "@, d@),
        ProtocolFault::InvalidStateTransition(d) => lemma_concat_ends_with("Invalid state transition: "@, d@),
    }
}

/// An error raised as `ActrRuntimeError` itself carries the full rendered text of
/// the protocol error, so no detail of it is lost.
pub proof fn lemma_generic_errors_keep_full_text(f: ProtocolFault)
    requires
        protocol_fault_class(f) == PyErrorClass::ActrRuntimeError,
    ensures
        protocol_fault_message(f) == protocol_fault_text(f),
{
}

/// Builds a `ValueError` with the given message.
pub fn value_error(message: String) -> (r: BindingError)
    ensures
        r.class == PyErrorClass::ValueError,
        r.message@ == message@,
{
    BindingError { class: PyErrorClass::ValueError, message }
}

/// Builds a `RuntimeError` with the given message.
pub fn runtime_error(message: String) -> (r: BindingError)
    ensures
        r.class == PyErrorClass::RuntimeError,
        r.message@ == message@,
{
    BindingError { class: PyErrorClass::RuntimeError, message }
}

} // verus!
